//! The bus: address decode over the 16-bit space, cartridge bank switching
//! (MBC1, MBC3, MBC5), work/high RAM, OAM DMA, the joypad matrix, the
//! memory-mapped I/O dispatch to the PPU and timer, and the interrupt
//! request/enable registers.
use crate::ppu::Mode;
use crate::ppu::PPU;
use crate::ppu::PpuView;
use crate::ppu::zero_bytes;
use crate::timer::Timer;
use vstd::prelude::*;

verus! {

/// The cartridge's memory-bank-controller kind, from header byte 0x0147.
#[derive(Clone, Copy, PartialEq, Eq, Structural, Debug)]
pub enum MemoryBank {
    MBCNONE,
    MBC1,
    MBC3,
    MBC5,
}

/// The MBC1 banking mode selected by the 0x6000 register.
#[derive(Clone, Copy, PartialEq, Eq, Structural, Debug)]
pub enum BankingMode {
    SIMPLE,
    ADVANCED,
}

/// Why a cartridge image was refused; the core is left untouched.
#[derive(Clone, Copy, PartialEq, Eq, Structural, Debug)]
pub enum LoadError {
    /// The image is shorter than 32 KiB or not a power of two in length.
    BadLength,
    /// Header byte 0x0147 names a bank controller this core does not know.
    UnknownMbcType,
    /// Header byte 0x0149 is not a known external-RAM size code.
    InvalidRamSize,
}

/// The mathematical state of the bus.
#[verifier::ext_equal]
pub struct MemView {
    pub rom: Seq<u8>,
    pub wram: Seq<u8>,
    pub hram: Seq<u8>,
    pub sram: Seq<u8>,
    pub boot_rom: Seq<u8>,
    pub boot_rom_mounted: bool,
    pub mbc_ram_enabled: bool,
    pub memory_bank: MemoryBank,
    pub banking_mode: BankingMode,
    pub rom_bank_number: u8,
    pub mbc5_rom_bank_top: u8,
    pub ram_rom_bank_number: u8,
    pub ie_reg: u8,
    pub if_reg: u8,
    pub keypress: i8,
    pub joyp: u8,
    pub prev_stat_line: bool,
    pub prev_buttons: u8,
    pub bess_buffer_offsets: Seq<u8>,
    pub debug_panel: Seq<usize>,
    pub ppu: PpuView,
    pub timer: Timer,
}

/// The bus. It owns the PPU, the timer, all RAM and the cartridge image;
/// the executor reaches everything through `read` and `write`.
pub struct Memory {
    pub rom_chip: Vec<u8>,
    pub wram: Vec<u8>,
    pub hram: Vec<u8>,
    pub sram: Vec<u8>,
    pub boot_rom: Vec<u8>,
    pub boot_rom_mounted: bool,
    pub mbc_ram_enabled: bool,
    pub memory_bank: MemoryBank,
    pub banking_mode: BankingMode,
    pub rom_bank_number: u8,
    pub mbc5_rom_bank_top: u8,
    pub ram_rom_bank_number: u8,
    pub ie_reg: u8,
    pub if_reg: u8,
    pub keypress: i8,
    pub joyp: u8,
    pub prev_stat_line: bool,
    pub prev_buttons: u8,
    pub bess_buffer_offsets: Vec<u8>,
    pub debug_panel: Vec<usize>,
    pub ppu: PPU,
    pub timer: Timer,
}

impl View for Memory {
    type V = MemView;

    open spec fn view(&self) -> MemView {
        MemView {
            rom: self.rom_chip@,
            wram: self.wram@,
            hram: self.hram@,
            sram: self.sram@,
            boot_rom: self.boot_rom@,
            boot_rom_mounted: self.boot_rom_mounted,
            mbc_ram_enabled: self.mbc_ram_enabled,
            memory_bank: self.memory_bank,
            banking_mode: self.banking_mode,
            rom_bank_number: self.rom_bank_number,
            mbc5_rom_bank_top: self.mbc5_rom_bank_top,
            ram_rom_bank_number: self.ram_rom_bank_number,
            ie_reg: self.ie_reg,
            if_reg: self.if_reg,
            keypress: self.keypress,
            joyp: self.joyp,
            prev_stat_line: self.prev_stat_line,
            prev_buttons: self.prev_buttons,
            bess_buffer_offsets: self.bess_buffer_offsets@,
            debug_panel: self.debug_panel@,
            ppu: self.ppu@,
            timer: self.timer,
        }
    }
}

impl MemView {
    /// Well-formedness of the bus: fixed RAM sizes, bounded cartridge
    /// images, a well-formed PPU, and a five-bit interrupt-request latch.
    pub open spec fn wf(self) -> bool {
        &&& self.wram.len() == 0x2000
        &&& self.hram.len() == 0x7F
        &&& self.boot_rom.len() == 0x100
        &&& self.debug_panel.len() == 432
        &&& self.rom.len() <= 0x800000
        &&& self.sram.len() <= 0x20000
        &&& self.if_reg < 0x20
        &&& self.ppu.wf()
    }

    /// A ROM read through the cartridge image, wrapped to its length;
    /// a missing image reads 0xFF.
    pub open spec fn spec_rom_at(self, offset: u32) -> u8 {
        if self.rom.len() == 0 {
            0xFF
        } else {
            self.rom[(offset as int) % (self.rom.len() as int)]
        }
    }

    /// An external-RAM read wrapped to the allocated size; missing RAM
    /// reads 0xFF.
    pub open spec fn spec_sram_at(self, offset: u32) -> u8 {
        if self.sram.len() == 0 {
            0xFF
        } else {
            self.sram[(offset as int) % (self.sram.len() as int)]
        }
    }

    /// The external-RAM image after a wrapped write; a write to missing
    /// RAM is dropped.
    pub open spec fn spec_sram_set(self, offset: u32, val: u8) -> Seq<u8> {
        if self.sram.len() == 0 {
            self.sram
        } else {
            self.sram.update((offset as int) % (self.sram.len() as int), val)
        }
    }

    /// The MBC1 ROM/RAM read: the secondary register feeds bits 19-20 (for
    /// 0x0000-0x3FFF only in advanced mode), the primary bank bits 14+.
    #[verifier::opaque]
    pub open spec fn spec_mbc1_read(self, addr: u16) -> u8 {
        if addr < 0x4000 {
            let offset: u32 = if self.banking_mode == BankingMode::ADVANCED {
                ((self.ram_rom_bank_number as u32) << 19) | ((addr as u32) % 0x4000)
            } else {
                addr as u32
            };
            self.spec_rom_at(offset)
        } else if addr < 0x8000 {
            let offset: u32 = ((self.ram_rom_bank_number as u32) << 19) | ((
            self.rom_bank_number as u32) << 14) | ((addr as u32) % 0x4000);
            self.spec_rom_at(offset)
        } else {
            if self.mbc_ram_enabled {
                let bank: u32 = if self.banking_mode == BankingMode::ADVANCED && self.rom.len()
                    > 0x149 && self.rom[0x149] == 0x03 {
                    self.ram_rom_bank_number as u32
                } else {
                    0
                };
                self.spec_sram_at((bank * 0x2000 + ((addr as u32) % 0x2000)) as u32)
            } else {
                0xFF
            }
        }
    }

    /// The MBC3 ROM/RAM read; secondary-bank values above 3 name the RTC
    /// registers, an external collaborator, and read 0xFF here.
    #[verifier::opaque]
    pub open spec fn spec_mbc3_read(self, addr: u16) -> u8 {
        if addr < 0x4000 {
            self.spec_rom_at(addr as u32)
        } else if addr < 0x8000 {
            self.spec_rom_at(
                ((self.rom_bank_number as u32) << 14) | ((addr as u32) % 0x4000),
            )
        } else {
            if self.mbc_ram_enabled {
                if self.ram_rom_bank_number > 0x03 {
                    0xFF
                } else {
                    self.spec_sram_at(
                        ((self.ram_rom_bank_number as u32) << 13) | ((addr as u32) % 0x2000),
                    )
                }
            } else {
                0xFF
            }
        }
    }

    /// The MBC5 ROM/RAM read: a 9-bit ROM bank (bank 0 is not coerced) and
    /// a 4-bit RAM bank.
    #[verifier::opaque]
    pub open spec fn spec_mbc5_read(self, addr: u16) -> u8 {
        if addr < 0x4000 {
            self.spec_rom_at(addr as u32)
        } else if addr < 0x8000 {
            self.spec_rom_at(
                ((self.mbc5_rom_bank_top as u32) << 22) | ((self.rom_bank_number as u32) << 14) | (
                (addr as u32) % 0x4000),
            )
        } else {
            if self.mbc_ram_enabled {
                self.spec_sram_at(
                    ((self.ram_rom_bank_number as u32) << 13) | ((addr as u32) % 0x2000),
                )
            } else {
                0xFF
            }
        }
    }

    /// A read with no bank controller: the plain image below 0x8000,
    /// external RAM at 0xA000-0xBFFF when the header allocated any.
    pub open spec fn spec_mbcnone_read(self, addr: u16) -> u8 {
        if addr < 0x8000 {
            if (addr as int) < self.rom.len() {
                self.rom[addr as int]
            } else {
                0xFF
            }
        } else {
            if ((addr - 0xA000) as int) < self.sram.len() {
                self.sram[(addr - 0xA000) as int]
            } else {
                0xFF
            }
        }
    }

    /// The MBC1 control-register write. A primary-bank write of 0x00 is
    /// coerced to 0x01; any other value is kept as written, so 0x20, 0x40
    /// and 0x60 select those banks.
    #[verifier::opaque]
    pub open spec fn spec_mbc1_write(self, addr: u16, val: u8) -> MemView {
        if addr < 0x2000 {
            MemView { mbc_ram_enabled: val & 0xF == 0xA, ..self }
        } else if addr < 0x4000 {
            MemView {
                rom_bank_number: if val == 0 {
                    1
                } else {
                    val
                },
                ..self
            }
        } else if addr < 0x6000 {
            MemView { ram_rom_bank_number: val & 0x3, ..self }
        } else if addr < 0x8000 {
            MemView {
                banking_mode: if val & 0x1 == 1 {
                    BankingMode::ADVANCED
                } else {
                    BankingMode::SIMPLE
                },
                ..self
            }
        } else {
            if self.mbc_ram_enabled {
                let bank: u32 = if self.banking_mode == BankingMode::ADVANCED && self.rom.len()
                    > 0x149 && self.rom[0x149] == 0x03 {
                    self.ram_rom_bank_number as u32
                } else {
                    0
                };
                MemView {
                    sram: self.spec_sram_set((bank * 0x2000 + ((addr as u32) % 0x2000)) as u32, val),
                    ..self
                }
            } else {
                self
            }
        }
    }

    /// The MBC3 control-register write; writes into the RTC secondary
    /// banks are accepted without touching RAM.
    #[verifier::opaque]
    pub open spec fn spec_mbc3_write(self, addr: u16, val: u8) -> MemView {
        if addr < 0x2000 {
            MemView { mbc_ram_enabled: val & 0xF == 0xA, ..self }
        } else if addr < 0x4000 {
            MemView {
                rom_bank_number: if val & 0x7F == 0 {
                    1
                } else {
                    val & 0x7F
                },
                ..self
            }
        } else if addr < 0x6000 {
            MemView { ram_rom_bank_number: val, ..self }
        } else if addr < 0x8000 {
            self
        } else {
            if self.mbc_ram_enabled && self.ram_rom_bank_number <= 0x03 {
                MemView {
                    sram: self.spec_sram_set(
                        ((self.ram_rom_bank_number as u32) << 13) | ((addr as u32) % 0x2000),
                        val,
                    ),
                    ..self
                }
            } else {
                self
            }
        }
    }

    /// The MBC5 control-register write.
    #[verifier::opaque]
    pub open spec fn spec_mbc5_write(self, addr: u16, val: u8) -> MemView {
        if addr < 0x2000 {
            MemView { mbc_ram_enabled: val & 0x0F == 0x0A, ..self }
        } else if addr < 0x3000 {
            MemView { rom_bank_number: val, ..self }
        } else if addr < 0x4000 {
            MemView { mbc5_rom_bank_top: val & 0x01, ..self }
        } else if addr < 0x6000 {
            MemView { ram_rom_bank_number: val & 0x0F, ..self }
        } else if addr < 0x8000 {
            self
        } else {
            if self.mbc_ram_enabled {
                MemView {
                    sram: self.spec_sram_set(
                        ((self.ram_rom_bank_number as u32) << 13) | ((addr as u32) % 0x2000),
                        val,
                    ),
                    ..self
                }
            } else {
                self
            }
        }
    }

    /// The value read at 0xFF00: the four button bits (0 = pressed) of the
    /// group selected by the JOYP select nibble, or 0xFF with no key down.
    #[verifier::opaque]
    pub open spec fn spec_joypad(self) -> u8 {
        if self.keypress != -1 {
            if (self.joyp >> 4) & 0x1 == 0 && (self.joyp >> 5) & 0x1 == 1 {
                match self.keypress {
                    1 => 0xB,
                    2 => 0xD,
                    3 => 0x7,
                    4 => 0xE,
                    _ => 0xF,
                }
            } else if (self.joyp >> 5) & 0x1 == 0 && (self.joyp >> 4) & 0x1 == 1 {
                match self.keypress {
                    5 => 0xE,
                    6 => 0xD,
                    7 => 0x7,
                    8 => 0xB,
                    _ => 0xF,
                }
            } else {
                0xF
            }
        } else {
            0xFF
        }
    }

    /// The value a CPU read returns for every address: banked ROM/RAM,
    /// VRAM and OAM through the PPU's mode lockout, work RAM and its echo,
    /// the joypad, the timer, IF (upper three bits high), the PPU
    /// registers, the boot-ROM latch, high RAM and IE. Prohibited regions
    /// read 0xFF.
    #[verifier::opaque]
    pub open spec fn spec_read(self, addr: u16) -> u8 {
        if self.boot_rom_mounted && addr <= 0xFF {
            self.boot_rom[addr as int]
        } else if addr < 0x8000 || (0xA000 <= addr && addr < 0xC000) {
            match self.memory_bank {
                MemoryBank::MBCNONE => self.spec_mbcnone_read(addr),
                MemoryBank::MBC1 => self.spec_mbc1_read(addr),
                MemoryBank::MBC3 => self.spec_mbc3_read(addr),
                MemoryBank::MBC5 => self.spec_mbc5_read(addr),
            }
        } else if addr < 0xA000 {
            if self.ppu.spec_mode() == Mode::DRAW {
                0xFF
            } else {
                self.ppu.vram[(addr - 0x8000) as int]
            }
        } else if addr < 0xE000 {
            self.wram[(addr - 0xC000) as int]
        } else if addr < 0xFE00 {
            self.wram[(addr - 0xE000) as int]
        } else if addr < 0xFEA0 {
            if self.ppu.spec_mode() == Mode::DRAW || self.ppu.spec_mode() == Mode::OAMSCAN {
                0xFF
            } else {
                self.ppu.oam[(addr - 0xFE00) as int]
            }
        } else if addr < 0xFF00 {
            0xFF
        } else if addr == 0xFF00 {
            self.spec_joypad()
        } else if 0xFF04 <= addr && addr <= 0xFF07 {
            Timer::spec_read(self.timer, addr)
        } else if addr == 0xFF0F {
            self.if_reg | 0xE0
        } else if 0xFF40 <= addr && addr <= 0xFF4B {
            self.ppu.spec_read_register(addr)
        } else if addr == 0xFF50 {
            if self.boot_rom_mounted {
                0x00
            } else {
                0x01
            }
        } else if 0xFF80 <= addr && addr <= 0xFFFE {
            self.hram[(addr - 0xFF80) as int]
        } else if addr == 0xFFFF {
            self.ie_reg
        } else {
            0xFF
        }
    }

    /// The OAM image after the atomic DMA copy of 160 bytes from
    /// `src << 8`, each byte read through the ordinary bus decode.
    #[verifier::opaque]
    pub open spec fn spec_dma_oam(self, src: u8) -> Seq<u8> {
        Seq::new(160, |i: int| self.spec_read(((src as int) * 256 + i) as u16))
    }

    /// The bus after a CPU write: bank-control registers below 0x8000 and
    /// at 0xA000-0xBFFF, VRAM/OAM through the mode lockout, work RAM,
    /// the joypad select, the timer, IF (masked to five bits), the OAM DMA
    /// trigger at 0xFF46, the PPU registers, the boot-ROM unmap latch,
    /// high RAM and IE. Writes to the echo and prohibited regions are
    /// dropped.
    #[verifier::opaque]
    pub open spec fn spec_write(self, addr: u16, val: u8) -> MemView {
        if addr < 0x8000 || (0xA000 <= addr && addr < 0xC000) {
            match self.memory_bank {
                MemoryBank::MBCNONE => if 0xA000 <= addr && ((addr - 0xA000) as int)
                    < self.sram.len() {
                    MemView { sram: self.sram.update((addr - 0xA000) as int, val), ..self }
                } else {
                    self
                },
                MemoryBank::MBC1 => self.spec_mbc1_write(addr, val),
                MemoryBank::MBC3 => self.spec_mbc3_write(addr, val),
                MemoryBank::MBC5 => self.spec_mbc5_write(addr, val),
            }
        } else if addr < 0xA000 {
            if self.ppu.spec_mode() == Mode::DRAW {
                self
            } else {
                MemView {
                    ppu: PpuView { vram: self.ppu.vram.update((addr - 0x8000) as int, val), ..self.ppu },
                    ..self
                }
            }
        } else if addr < 0xE000 {
            MemView { wram: self.wram.update((addr - 0xC000) as int, val), ..self }
        } else if addr < 0xFE00 {
            self
        } else if addr < 0xFEA0 {
            if self.ppu.spec_mode() == Mode::DRAW || self.ppu.spec_mode() == Mode::OAMSCAN {
                self
            } else {
                MemView {
                    ppu: PpuView { oam: self.ppu.oam.update((addr - 0xFE00) as int, val), ..self.ppu },
                    ..self
                }
            }
        } else if addr < 0xFF00 {
            self
        } else if addr == 0xFF00 {
            MemView { joyp: val, ..self }
        } else if 0xFF04 <= addr && addr <= 0xFF07 {
            MemView { timer: Timer::spec_write(self.timer, addr, val), ..self }
        } else if addr == 0xFF0F {
            MemView { if_reg: val & 0x1F, ..self }
        } else if addr == 0xFF46 {
            MemView { ppu: PpuView { oam: self.spec_dma_oam(val), ..self.ppu }, ..self }
        } else if 0xFF40 <= addr && addr <= 0xFF4B {
            MemView { ppu: self.ppu.spec_write_register(addr, val), ..self }
        } else if addr == 0xFF50 {
            MemView { boot_rom_mounted: val & 0x1 != 1, ..self }
        } else if 0xFF80 <= addr && addr <= 0xFFFE {
            MemView { hram: self.hram.update((addr - 0xFF80) as int, val), ..self }
        } else if addr == 0xFFFF {
            MemView { ie_reg: val, ..self }
        } else {
            self
        }
    }
}

/// Which bank controller header byte 0x0147 names, if any.
pub open spec fn spec_mbc_of(code: u8) -> Option<MemoryBank> {
    if code == 0x00 {
        Some(MemoryBank::MBCNONE)
    } else if 0x01 <= code && code <= 0x03 {
        Some(MemoryBank::MBC1)
    } else if 0x0F <= code && code <= 0x13 {
        Some(MemoryBank::MBC3)
    } else if 0x19 <= code && code <= 0x1E {
        Some(MemoryBank::MBC5)
    } else {
        None
    }
}

/// The external-RAM allocation named by header byte 0x0149; at least one
/// 8 KiB bank is always allocated.
pub open spec fn spec_sram_size(code: u8) -> int {
    match code {
        0x03 => 0x8000,
        0x04 => 0x20000,
        0x05 => 0x10000,
        _ => 0x2000,
    }
}

/// Why a cartridge image is refused, if it is: shorter than 32 KiB, over
/// 8 MiB or not a power of two in length; an unknown bank controller; an
/// unknown RAM-size code.
pub open spec fn spec_load_error(bytes: Seq<u8>) -> Option<LoadError> {
    if bytes.len() < 0x8000 || bytes.len() > 0x800000 || ((bytes.len() as u64) & ((bytes.len()
        - 1) as u64)) != 0 {
        Some(LoadError::BadLength)
    } else if spec_mbc_of(bytes[0x147]) is None {
        Some(LoadError::UnknownMbcType)
    } else if bytes[0x149] > 0x05 {
        Some(LoadError::InvalidRamSize)
    } else {
        None
    }
}

fn mbc_of(code: u8) -> (r: Option<MemoryBank>)
    ensures
        r == spec_mbc_of(code),
{
    if code == 0x00 {
        Some(MemoryBank::MBCNONE)
    } else if 0x01 <= code && code <= 0x03 {
        Some(MemoryBank::MBC1)
    } else if 0x0F <= code && code <= 0x13 {
        Some(MemoryBank::MBC3)
    } else if 0x19 <= code && code <= 0x1E {
        Some(MemoryBank::MBC5)
    } else {
        None
    }
}

/// Copy a byte buffer.
pub fn clone_bytes(src: &Vec<u8>) -> (r: Vec<u8>)
    ensures
        r@ == src@,
{
    let mut r: Vec<u8> = Vec::new();
    let mut i: usize = 0;
    while i < src.len()
        invariant
            i <= src@.len(),
            r@.len() == i,
            forall|k: int| 0 <= k < i ==> r@[k] == src@[k],
        decreases src@.len() - i,
    {
        r.push(src[i]);
        i = i + 1;
    }
    proof {
        assert(r@ =~= src@);
    }
    r
}

/// Append a byte buffer to another.
pub fn append_bytes(dst: &mut Vec<u8>, src: &Vec<u8>)
    ensures
        final(dst)@ == old(dst)@ + src@,
{
    let mut i: usize = 0;
    while i < src.len()
        invariant
            i <= src@.len(),
            dst@.len() == old(dst)@.len() + i,
            forall|k: int| 0 <= k < old(dst)@.len() ==> dst@[k] == old(dst)@[k],
            forall|k: int| 0 <= k < i ==> dst@[old(dst)@.len() + k] == src@[k],
        decreases src@.len() - i,
    {
        dst.push(src[i]);
        i = i + 1;
    }
    proof {
        assert(dst@ =~= old(dst)@ + src@);
    }
}

/// Append the four little-endian bytes of a 32-bit value.
pub fn append_u32le(dst: &mut Vec<u8>, val: u32)
    ensures
        final(dst)@ == old(dst)@ + crate::spec_u32_le(val),
{
    dst.push((val & 0xFF) as u8);
    dst.push(((val >> 8) & 0xFF) as u8);
    dst.push(((val >> 16) & 0xFF) as u8);
    dst.push(((val >> 24) & 0xFF) as u8);
    proof {
        assert(dst@ =~= old(dst)@ + crate::spec_u32_le(val));
    }
}

/// A zero-filled buffer of machine words.
fn zero_usizes(n: usize) -> (r: Vec<usize>)
    ensures
        r@.len() == n,
        forall|i: int| 0 <= i < n ==> r@[i] == 0,
{
    let mut r: Vec<usize> = Vec::new();
    let mut i: usize = 0;
    while i < n
        invariant
            i <= n,
            r@.len() == i,
            forall|k: int| 0 <= k < i ==> r@[k] == 0,
        decreases n - i,
    {
        r.push(0);
        i = i + 1;
    }
    r
}

impl Memory {
    fn rom_at(&self, offset: u32) -> (r: u8)
        ensures
            r == self@.spec_rom_at(offset),
    {
        if self.rom_chip.len() == 0 {
            0xFF
        } else {
            self.rom_chip[(offset as usize) % self.rom_chip.len()]
        }
    }

    fn sram_at(&self, offset: u32) -> (r: u8)
        ensures
            r == self@.spec_sram_at(offset),
    {
        if self.sram.len() == 0 {
            0xFF
        } else {
            self.sram[(offset as usize) % self.sram.len()]
        }
    }

    fn sram_set(&mut self, offset: u32, val: u8)
        ensures
            final(self)@ == (MemView { sram: old(self)@.spec_sram_set(offset, val), ..old(self)@ }),
    {
        if self.sram.len() > 0 {
            let idx = (offset as usize) % self.sram.len();
            self.sram.set(idx, val);
        }
        proof {
            assert(self@ =~~= (MemView {
                sram: old(self)@.spec_sram_set(offset, val),
                ..old(self)@
            }));
        }
    }

    fn mbc1_read(&self, addr: u16) -> (r: u8)
        requires
            addr < 0x8000 || (0xA000 <= addr && addr < 0xC000),
        ensures
            r == self@.spec_mbc1_read(addr),
    {
        proof {
            reveal(MemView::spec_mbc1_read);
        }
        if addr < 0x4000 {
            let offset: u32 = if matches!(self.banking_mode, BankingMode::ADVANCED) {
                ((self.ram_rom_bank_number as u32) << 19) | ((addr as u32) % 0x4000)
            } else {
                addr as u32
            };
            self.rom_at(offset)
        } else if addr < 0x8000 {
            let offset: u32 = ((self.ram_rom_bank_number as u32) << 19) | ((
            self.rom_bank_number as u32) << 14) | ((addr as u32) % 0x4000);
            self.rom_at(offset)
        } else {
            if self.mbc_ram_enabled {
                let bank: u32 = if matches!(self.banking_mode, BankingMode::ADVANCED)
                    && self.rom_chip.len() > 0x149 && self.rom_chip[0x149] == 0x03 {
                    self.ram_rom_bank_number as u32
                } else {
                    0
                };
                self.sram_at(bank * 0x2000 + ((addr as u32) % 0x2000))
            } else {
                0xFF
            }
        }
    }

    fn mbc3_read(&self, addr: u16) -> (r: u8)
        requires
            addr < 0x8000 || (0xA000 <= addr && addr < 0xC000),
        ensures
            r == self@.spec_mbc3_read(addr),
    {
        proof {
            reveal(MemView::spec_mbc3_read);
        }
        if addr < 0x4000 {
            self.rom_at(addr as u32)
        } else if addr < 0x8000 {
            self.rom_at(((self.rom_bank_number as u32) << 14) | ((addr as u32) % 0x4000))
        } else {
            if self.mbc_ram_enabled {
                if self.ram_rom_bank_number > 0x03 {
                    0xFF
                } else {
                    self.sram_at(
                        ((self.ram_rom_bank_number as u32) << 13) | ((addr as u32) % 0x2000),
                    )
                }
            } else {
                0xFF
            }
        }
    }

    fn mbc5_read(&self, addr: u16) -> (r: u8)
        requires
            addr < 0x8000 || (0xA000 <= addr && addr < 0xC000),
        ensures
            r == self@.spec_mbc5_read(addr),
    {
        proof {
            reveal(MemView::spec_mbc5_read);
        }
        if addr < 0x4000 {
            self.rom_at(addr as u32)
        } else if addr < 0x8000 {
            self.rom_at(
                ((self.mbc5_rom_bank_top as u32) << 22) | ((self.rom_bank_number as u32) << 14) | (
                (addr as u32) % 0x4000),
            )
        } else {
            if self.mbc_ram_enabled {
                self.sram_at(((self.ram_rom_bank_number as u32) << 13) | ((addr as u32) % 0x2000))
            } else {
                0xFF
            }
        }
    }

    fn mbc1_write(&mut self, addr: u16, val: u8)
        requires
            addr < 0x8000 || (0xA000 <= addr && addr < 0xC000),
        ensures
            final(self)@ == old(self)@.spec_mbc1_write(addr, val),
            final(self)@.wram == old(self)@.wram,
            final(self)@.hram == old(self)@.hram,
            final(self)@.boot_rom == old(self)@.boot_rom,
            final(self)@.debug_panel == old(self)@.debug_panel,
            final(self)@.rom == old(self)@.rom,
            final(self)@.sram.len() == old(self)@.sram.len(),
            final(self)@.if_reg == old(self)@.if_reg,
            final(self)@.ppu == old(self)@.ppu,
    {
        proof {
            reveal(MemView::spec_mbc1_write);
        }
        if addr < 0x2000 {
            self.mbc_ram_enabled = val & 0xF == 0xA;
        } else if addr < 0x4000 {
            self.rom_bank_number = if val == 0 {
                1
            } else {
                val
            };
        } else if addr < 0x6000 {
            self.ram_rom_bank_number = val & 0x3;
        } else if addr < 0x8000 {
            self.banking_mode = if val & 0x1 == 1 {
                BankingMode::ADVANCED
            } else {
                BankingMode::SIMPLE
            };
        } else {
            if self.mbc_ram_enabled {
                let bank: u32 = if matches!(self.banking_mode, BankingMode::ADVANCED)
                    && self.rom_chip.len() > 0x149 && self.rom_chip[0x149] == 0x03 {
                    self.ram_rom_bank_number as u32
                } else {
                    0
                };
                self.sram_set(bank * 0x2000 + ((addr as u32) % 0x2000), val);
            }
        }
        proof {
            assert(self@ =~~= old(self)@.spec_mbc1_write(addr, val));
        }
    }

    fn mbc3_write(&mut self, addr: u16, val: u8)
        requires
            addr < 0x8000 || (0xA000 <= addr && addr < 0xC000),
        ensures
            final(self)@ == old(self)@.spec_mbc3_write(addr, val),
            final(self)@.wram == old(self)@.wram,
            final(self)@.hram == old(self)@.hram,
            final(self)@.boot_rom == old(self)@.boot_rom,
            final(self)@.debug_panel == old(self)@.debug_panel,
            final(self)@.rom == old(self)@.rom,
            final(self)@.sram.len() == old(self)@.sram.len(),
            final(self)@.if_reg == old(self)@.if_reg,
            final(self)@.ppu == old(self)@.ppu,
    {
        proof {
            reveal(MemView::spec_mbc3_write);
        }
        if addr < 0x2000 {
            self.mbc_ram_enabled = val & 0xF == 0xA;
        } else if addr < 0x4000 {
            self.rom_bank_number = if val & 0x7F == 0 {
                1
            } else {
                val & 0x7F
            };
        } else if addr < 0x6000 {
            self.ram_rom_bank_number = val;
        } else if addr < 0x8000 {
        } else {
            if self.mbc_ram_enabled && self.ram_rom_bank_number <= 0x03 {
                self.sram_set(
                    ((self.ram_rom_bank_number as u32) << 13) | ((addr as u32) % 0x2000),
                    val,
                );
            }
        }
        proof {
            assert(self@ =~~= old(self)@.spec_mbc3_write(addr, val));
        }
    }

    fn mbc5_write(&mut self, addr: u16, val: u8)
        requires
            addr < 0x8000 || (0xA000 <= addr && addr < 0xC000),
        ensures
            final(self)@ == old(self)@.spec_mbc5_write(addr, val),
            final(self)@.wram == old(self)@.wram,
            final(self)@.hram == old(self)@.hram,
            final(self)@.boot_rom == old(self)@.boot_rom,
            final(self)@.debug_panel == old(self)@.debug_panel,
            final(self)@.rom == old(self)@.rom,
            final(self)@.sram.len() == old(self)@.sram.len(),
            final(self)@.if_reg == old(self)@.if_reg,
            final(self)@.ppu == old(self)@.ppu,
    {
        proof {
            reveal(MemView::spec_mbc5_write);
        }
        if addr < 0x2000 {
            self.mbc_ram_enabled = val & 0x0F == 0x0A;
        } else if addr < 0x3000 {
            self.rom_bank_number = val;
        } else if addr < 0x4000 {
            self.mbc5_rom_bank_top = val & 0x01;
        } else if addr < 0x6000 {
            self.ram_rom_bank_number = val & 0x0F;
        } else if addr < 0x8000 {
        } else {
            if self.mbc_ram_enabled {
                self.sram_set(
                    ((self.ram_rom_bank_number as u32) << 13) | ((addr as u32) % 0x2000),
                    val,
                );
            }
        }
        proof {
            assert(self@ =~~= old(self)@.spec_mbc5_write(addr, val));
        }
    }

    /// Read one byte from the bus; see `MemView::spec_read`.
    pub fn read(&self, addr: u16) -> (val: u8)
        requires
            self@.wf(),
        ensures
            val == self@.spec_read(addr),
    {
        proof {
            reveal(MemView::spec_read);
        }
        if self.boot_rom_mounted && addr <= 0xFF {
            return self.boot_rom[addr as usize];
        }
        if addr < 0x8000 || (0xA000 <= addr && addr < 0xC000) {
            match self.memory_bank {
                MemoryBank::MBCNONE => {
                    if addr < 0x8000 {
                        if (addr as usize) < self.rom_chip.len() {
                            self.rom_chip[addr as usize]
                        } else {
                            0xFF
                        }
                    } else {
                        if ((addr - 0xA000) as usize) < self.sram.len() {
                            self.sram[(addr - 0xA000) as usize]
                        } else {
                            0xFF
                        }
                    }
                },
                MemoryBank::MBC1 => self.mbc1_read(addr),
                MemoryBank::MBC3 => self.mbc3_read(addr),
                MemoryBank::MBC5 => self.mbc5_read(addr),
            }
        } else if addr < 0xA000 {
            self.ppu.read_vram(addr - 0x8000)
        } else if addr < 0xE000 {
            self.wram[(addr - 0xC000) as usize]
        } else if addr < 0xFE00 {
            self.wram[(addr - 0xE000) as usize]
        } else if addr < 0xFEA0 {
            self.ppu.read_oam(addr - 0xFE00)
        } else if addr < 0xFF00 {
            0xFF
        } else if addr == 0xFF00 {
            self.joypad_bits()
        } else if 0xFF04 <= addr && addr <= 0xFF07 {
            self.timer.read_registers(addr)
        } else if addr == 0xFF0F {
            self.if_reg | 0xE0
        } else if 0xFF40 <= addr && addr <= 0xFF4B {
            self.ppu.read_registers(addr)
        } else if addr == 0xFF50 {
            if self.boot_rom_mounted {
                0x00
            } else {
                0x01
            }
        } else if 0xFF80 <= addr && addr <= 0xFFFE {
            self.hram[(addr - 0xFF80) as usize]
        } else if addr == 0xFFFF {
            self.ie_reg
        } else {
            0xFF
        }
    }

    fn joypad_bits(&self) -> (r: u8)
        ensures
            r == self@.spec_joypad(),
    {
        proof {
            reveal(MemView::spec_joypad);
        }
        if self.keypress != -1 {
            if (self.joyp >> 4) & 0x1 == 0 && (self.joyp >> 5) & 0x1 == 1 {
                match self.keypress {
                    1 => 0xB,
                    2 => 0xD,
                    3 => 0x7,
                    4 => 0xE,
                    _ => 0xF,
                }
            } else if (self.joyp >> 5) & 0x1 == 0 && (self.joyp >> 4) & 0x1 == 1 {
                match self.keypress {
                    5 => 0xE,
                    6 => 0xD,
                    7 => 0x7,
                    8 => 0xB,
                    _ => 0xF,
                }
            } else {
                0xF
            }
        } else {
            0xFF
        }
    }

    /// The atomic OAM DMA copy: 160 bytes from `src << 8` into OAM,
    /// bypassing the mode lockout.
    fn oam_dma_transfer(&mut self, src: u8)
        requires
            old(self)@.wf(),
        ensures
            final(self)@ == (MemView {
                ppu: PpuView { oam: old(self)@.spec_dma_oam(src), ..old(self)@.ppu },
                ..old(self)@
            }),
            final(self)@.wf(),
    {
        let mut buf: Vec<u8> = Vec::new();
        let mut i: usize = 0;
        while i < 160
            invariant
                self@ == old(self)@,
                old(self)@.wf(),
                self@.wf(),
                i <= 160,
                buf@.len() == i,
                forall|k: int|
                    0 <= k < i ==> buf@[k] == self@.spec_read(((src as int) * 256 + k) as u16),
            decreases 160 - i,
        {
            let b = self.read((src as u16) * 256 + (i as u16));
            buf.push(b);
            i = i + 1;
        }
        let mut j: usize = 0;
        while j < 160
            invariant
                old(self)@.wf(),
                j <= 160,
                buf@.len() == 160,
                forall|k: int|
                    0 <= k < 160 ==> buf@[k] == old(self)@.spec_read(
                        ((src as int) * 256 + k) as u16,
                    ),
                self@.ppu.wf(),
                self@.ppu.oam.len() == 160,
                forall|k: int| 0 <= k < j ==> self@.ppu.oam[k] == buf@[k],
                forall|k: int| j <= k < 160 ==> self@.ppu.oam[k] == old(self)@.ppu.oam[k],
                self@ == (MemView {
                    ppu: PpuView { oam: self@.ppu.oam, ..old(self)@.ppu },
                    ..old(self)@
                }),
            decreases 160 - j,
        {
            let b = buf[j];
            self.ppu.write_oam_dma(j as u16, b);
            j = j + 1;
        }
        proof {
            reveal(MemView::spec_dma_oam);
            let target = old(self)@.spec_dma_oam(src);
            assert(self@.ppu.oam.len() == 160);
            assert(target.len() == 160);
            assert forall|k: int| 0 <= k < 160 implies target[k] == buf@[k] by {
                assert(target[k] == old(self)@.spec_read(((src as int) * 256 + k) as u16));
            }
            assert(self@.ppu.oam =~= target);
            assert(self@ =~~= (MemView {
                ppu: PpuView { oam: old(self)@.spec_dma_oam(src), ..old(self)@.ppu },
                ..old(self)@
            }));
        }
    }

    /// Write one byte to the bus; see `MemView::spec_write`.
    #[verifier::rlimit(100)]
    pub fn write(&mut self, addr: u16, val: u8)
        requires
            old(self)@.wf(),
        ensures
            final(self)@ == old(self)@.spec_write(addr, val),
            final(self)@.wf(),
            final(self)@.sram.len() == old(self)@.sram.len(),
    {
        proof {
            reveal(MemView::spec_write);
        }
        if addr < 0x8000 || (0xA000 <= addr && addr < 0xC000) {
            match self.memory_bank {
                MemoryBank::MBCNONE => {
                    if 0xA000 <= addr && ((addr - 0xA000) as usize) < self.sram.len() {
                        self.sram.set((addr - 0xA000) as usize, val);
                    }
                },
                MemoryBank::MBC1 => self.mbc1_write(addr, val),
                MemoryBank::MBC3 => self.mbc3_write(addr, val),
                MemoryBank::MBC5 => self.mbc5_write(addr, val),
            }
        } else if addr < 0xA000 {
            self.ppu.write_vram(addr - 0x8000, val);
        } else if addr < 0xE000 {
            self.wram.set((addr - 0xC000) as usize, val);
        } else if addr < 0xFE00 {
        } else if addr < 0xFEA0 {
            self.ppu.write_oam(addr - 0xFE00, val);
        } else if addr < 0xFF00 {
        } else if addr == 0xFF00 {
            self.joyp = val;
        } else if 0xFF04 <= addr && addr <= 0xFF07 {
            self.timer.write_registers(addr, val);
        } else if addr == 0xFF0F {
            self.if_reg = val & 0x1F;
            proof {
                assert(val & 0x1F < 0x20) by (bit_vector);
            }
        } else if addr == 0xFF46 {
            self.oam_dma_transfer(val);
        } else if 0xFF40 <= addr && addr <= 0xFF4B {
            self.ppu.write_registers(addr, val);
        } else if addr == 0xFF50 {
            self.boot_rom_mounted = val & 0x1 != 1;
        } else if 0xFF80 <= addr && addr <= 0xFFFE {
            self.hram.set((addr - 0xFF80) as usize, val);
        } else if addr == 0xFFFF {
            self.ie_reg = val;
        }
        proof {
            assert(self@ =~~= old(self)@.spec_write(addr, val));
        }
    }
}

impl MemView {
    /// The STAT interrupt line: the OR of the enabled STAT sources
    /// (coincidence, mode 2, mode 1, mode 0); the STAT interrupt fires on
    /// this line's rising edge.
    pub open spec fn spec_stat_line(self) -> bool {
        let s = self.ppu.stat;
        ||| ((s >> 6) & 0x1 == 1 && (s >> 2) & 0x1 == 1)
        ||| ((s >> 5) & 0x1 == 1 && self.ppu.spec_mode() == Mode::OAMSCAN)
        ||| ((s >> 4) & 0x1 == 1 && self.ppu.spec_mode() == Mode::VBLANK)
        ||| ((s >> 3) & 0x1 == 1 && self.ppu.spec_mode() == Mode::HBLANK)
    }

    /// The interrupt-flag update at the end of one machine cycle: VBLANK
    /// once on entering mode 1, STAT on the rising edge of the STAT line,
    /// TIMER one cycle after a TIMA overflow, JOYPAD on any 1-to-0
    /// transition of the readable button bits.
    #[verifier::opaque]
    pub open spec fn spec_update_requested_interrupts(self) -> MemView {
        let m = self;
        let vb = !m.ppu.vblank_irq_triggered && m.ppu.spec_mode() == Mode::VBLANK;
        let r1: u8 = if vb {
            0x01
        } else {
            0x00
        };
        let m1 = if vb {
            MemView { ppu: PpuView { vblank_irq_triggered: true, ..m.ppu }, ..m }
        } else {
            m
        };
        let line = m1.spec_stat_line();
        let r2: u8 = if line && !m1.prev_stat_line {
            0x02
        } else {
            0x00
        };
        let m2 = MemView { prev_stat_line: line, ..m1 };
        let r3: u8 = if m2.timer.tima_irq == 1 {
            0x04
        } else {
            0x00
        };
        let m3 = if m2.timer.tima_irq > 0 {
            MemView { timer: Timer { tima_irq: (m2.timer.tima_irq - 1) as u8, ..m2.timer }, ..m2 }
        } else {
            m2
        };
        let buttons: u8 = m3.spec_joypad() & 0xF;
        let r4: u8 = if m3.prev_buttons & (!buttons) & 0xF != 0 {
            0x10
        } else {
            0x00
        };
        let m4 = MemView { prev_buttons: buttons, ..m3 };
        MemView { if_reg: (m4.if_reg | r1 | r2 | r3 | r4) & 0x1F, ..m4 }
    }

    /// One machine cycle of the owned components: the PPU advances four
    /// dots and the timer four sysclock counts.
    pub open spec fn spec_update_components(self) -> MemView {
        MemView { ppu: self.ppu.spec_update(), timer: Timer::spec_update(self.timer), ..self }
    }

    /// The INFO payload of a save state: cartridge title bytes
    /// 0x134-0x143 and global checksum bytes 0x14E-0x14F.
    #[verifier::opaque]
    pub open spec fn spec_rom_info(self) -> Seq<u8> {
        if self.rom.len() >= 0x150 {
            self.rom.subrange(0x134, 0x144) + self.rom.subrange(0x14E, 0x150)
        } else {
            Seq::empty()
        }
    }

    /// The MBC save-state block: (address, value) tuples, address low byte
    /// first, that re-drive this cartridge's bank-control registers.
    #[verifier::opaque]
    pub open spec fn spec_bess_mbc_block(self) -> Option<Seq<u8>> {
        let en: u8 = if self.mbc_ram_enabled {
            0x0A
        } else {
            0x00
        };
        match self.memory_bank {
            MemoryBank::MBCNONE => None,
            MemoryBank::MBC1 => Some(
                seq![
                    0x00u8,
                    0x00u8,
                    en,
                    0x00u8,
                    0x20u8,
                    self.rom_bank_number,
                    0x00u8,
                    0x40u8,
                    self.ram_rom_bank_number,
                    0x00u8,
                    0x60u8,
                    if self.banking_mode == BankingMode::ADVANCED {
                        1u8
                    } else {
                        0u8
                    },
                ],
            ),
            MemoryBank::MBC3 => Some(
                seq![
                    0x00u8,
                    0x00u8,
                    en,
                    0x00u8,
                    0x20u8,
                    if self.rom_bank_number == 0x01 {
                        0x00u8
                    } else {
                        self.rom_bank_number
                    },
                    0x00u8,
                    0x40u8,
                    self.ram_rom_bank_number,
                ],
            ),
            MemoryBank::MBC5 => Some(
                seq![
                    0x00u8,
                    0x00u8,
                    en,
                    0x00u8,
                    0x20u8,
                    self.rom_bank_number,
                    0x00u8,
                    0x30u8,
                    self.mbc5_rom_bank_top,
                    0x00u8,
                    0x40u8,
                    self.ram_rom_bank_number,
                ],
            ),
        }
    }

    /// The concatenated large memory regions that open a save-state file:
    /// work RAM, VRAM, external RAM, OAM, high RAM, in that order.
    pub open spec fn spec_bess_buffers(self) -> Seq<u8> {
        self.wram + self.ppu.vram + self.sram + self.ppu.oam + self.hram
    }

    /// The size/offset pairs describing `spec_bess_buffers`, each a 32-bit
    /// little-endian size followed by the region's offset in the file.
    #[verifier::opaque]
    pub open spec fn spec_bess_offsets(self) -> Seq<u8> {
        crate::spec_u32_le(0x2000) + crate::spec_u32_le(0) + crate::spec_u32_le(0x2000)
            + crate::spec_u32_le(0x2000) + crate::spec_u32_le(self.sram.len() as u32)
            + crate::spec_u32_le(0x4000) + crate::spec_u32_le(160) + crate::spec_u32_le(
            (0x4000 + self.sram.len()) as u32,
        ) + crate::spec_u32_le(0x7F) + crate::spec_u32_le((0x40A0 + self.sram.len()) as u32)
    }
}

impl Memory {
    /// Recompute the interrupt-request flags from the edges observed this
    /// machine cycle; see `MemView::spec_update_requested_interrupts`.
    #[verifier::rlimit(100)]
    pub fn update_requested_interrupts(&mut self)
        requires
            old(self)@.wf(),
        ensures
            final(self)@ == old(self)@.spec_update_requested_interrupts(),
            final(self)@.wf(),
    {
        proof {
            reveal(MemView::spec_update_requested_interrupts);
        }
        let vb = !self.ppu.vblank_irq_triggered && matches!(self.ppu.get_mode(), Mode::VBLANK);
        let r1: u8 = if vb {
            0x01
        } else {
            0x00
        };
        if vb {
            self.ppu.vblank_irq_triggered = true;
        }
        let s = self.ppu.stat;
        let line: bool = ((s >> 6) & 0x1 == 1 && (s >> 2) & 0x1 == 1) || ((s >> 5) & 0x1 == 1
            && matches!(self.ppu.get_mode(), Mode::OAMSCAN)) || ((s >> 4) & 0x1 == 1 && matches!(
            self.ppu.get_mode(),
            Mode::VBLANK,
        )) || ((s >> 3) & 0x1 == 1 && matches!(self.ppu.get_mode(), Mode::HBLANK));
        let r2: u8 = if line && !self.prev_stat_line {
            0x02
        } else {
            0x00
        };
        self.prev_stat_line = line;
        let r3: u8 = if self.timer.tima_irq == 1 {
            0x04
        } else {
            0x00
        };
        if self.timer.tima_irq > 0 {
            self.timer.tima_irq = self.timer.tima_irq - 1;
        }
        let buttons: u8 = self.joypad_bits() & 0xF;
        let r4: u8 = if self.prev_buttons & (!buttons) & 0xF != 0 {
            0x10
        } else {
            0x00
        };
        self.prev_buttons = buttons;
        let ghost f0: u8 = self.if_reg;
        self.if_reg = (self.if_reg | r1 | r2 | r3 | r4) & 0x1F;
        proof {
            assert((f0 | r1 | r2 | r3 | r4) & 0x1F < 0x20) by (bit_vector);
            assert(self@ =~~= old(self)@.spec_update_requested_interrupts());
        }
    }

    /// Advance the PPU and the timer by one machine cycle.
    pub fn update_components(&mut self)
        requires
            old(self)@.wf(),
        ensures
            final(self)@ == old(self)@.spec_update_components(),
            final(self)@.wf(),
    {
        self.ppu.update();
        self.timer.update();
        proof {
            assert(self@ =~~= old(self)@.spec_update_components());
        }
    }

    /// Accept a cartridge image: the length must be a power of two between
    /// 32 KiB and 8 MiB, and the header must name a known bank controller
    /// and RAM size. On refusal the bus is left untouched.
    pub fn load_cartridge(&mut self, bytes: Vec<u8>) -> (r: Result<(), LoadError>)
        requires
            old(self)@.wf(),
        ensures
            final(self)@.wf(),
            match r {
                Ok(()) => spec_load_error(bytes@) is None && final(self)@ == (MemView {
                    rom: bytes@,
                    sram: Seq::new(spec_sram_size(bytes@[0x149]) as nat, |i: int| 0u8),
                    memory_bank: spec_mbc_of(bytes@[0x147]).unwrap(),
                    ..old(self)@
                }),
                Err(e) => spec_load_error(bytes@) == Some(e) && final(self)@ == old(self)@,
            },
    {
        let n = bytes.len();
        if n < 0x8000 || n > 0x800000 || ((n as u64) & ((n as u64) - 1)) != 0 {
            return Err(LoadError::BadLength);
        }
        let mbc = match mbc_of(bytes[0x147]) {
            Some(b) => b,
            None => {
                return Err(LoadError::UnknownMbcType);
            },
        };
        let ram_code = bytes[0x149];
        if ram_code > 0x05 {
            return Err(LoadError::InvalidRamSize);
        }
        let sram_size: usize = match ram_code {
            0x03 => 0x8000,
            0x04 => 0x20000,
            0x05 => 0x10000,
            _ => 0x2000,
        };
        self.rom_chip = bytes;
        self.sram = zero_bytes(sram_size);
        self.memory_bank = mbc;
        proof {
            assert(self.sram@ =~= Seq::new(
                spec_sram_size(self.rom_chip@[0x149]) as nat,
                |i: int| 0u8,
            ));
            assert(self@ =~~= (MemView {
                rom: self.rom_chip@,
                sram: Seq::new(spec_sram_size(self.rom_chip@[0x149]) as nat, |i: int| 0u8),
                memory_bank: self.memory_bank,
                ..old(self)@
            }));
        }
        Ok(())
    }

    /// The INFO payload: cartridge title and global checksum bytes.
    pub fn get_rom_info(&self) -> (r: Vec<u8>)
        ensures
            r@ == self@.spec_rom_info(),
    {
        proof {
            reveal(MemView::spec_rom_info);
        }
        let mut r: Vec<u8> = Vec::new();
        if self.rom_chip.len() >= 0x150 {
            let mut i: usize = 0x134;
            while i < 0x144
                invariant
                    0x134 <= i <= 0x144,
                    self.rom_chip@.len() >= 0x150,
                    r@.len() == i - 0x134,
                    forall|k: int| 0 <= k < r@.len() ==> r@[k] == self.rom_chip@[0x134 + k],
                decreases 0x144 - i,
            {
                r.push(self.rom_chip[i]);
                i = i + 1;
            }
            r.push(self.rom_chip[0x14E]);
            r.push(self.rom_chip[0x14F]);
            proof {
                assert(r@ =~= self@.spec_rom_info());
            }
        } else {
            proof {
                assert(r@ =~= self@.spec_rom_info());
            }
        }
        r
    }

    /// Build the MBC save-state block, if this cartridge has a bank
    /// controller; see `MemView::spec_bess_mbc_block`.
    pub fn create_bess_mbc_block(&self) -> (r: Option<Vec<u8>>)
        ensures
            match r {
                Some(v) => self@.spec_bess_mbc_block() == Some(v@),
                None => self@.spec_bess_mbc_block() is None,
            },
    {
        proof {
            reveal(MemView::spec_bess_mbc_block);
        }
        let en: u8 = if self.mbc_ram_enabled {
            0x0A
        } else {
            0x00
        };
        match self.memory_bank {
            MemoryBank::MBCNONE => None,
            MemoryBank::MBC1 => {
                let mut v: Vec<u8> = Vec::new();
                v.push(0x00);
                v.push(0x00);
                v.push(en);
                v.push(0x00);
                v.push(0x20);
                v.push(self.rom_bank_number);
                v.push(0x00);
                v.push(0x40);
                v.push(self.ram_rom_bank_number);
                v.push(0x00);
                v.push(0x60);
                v.push(
                    if matches!(self.banking_mode, BankingMode::ADVANCED) {
                        1
                    } else {
                        0
                    },
                );
                proof {
                    assert(Some(v@) =~~= self@.spec_bess_mbc_block());
                }
                Some(v)
            },
            MemoryBank::MBC3 => {
                let mut v: Vec<u8> = Vec::new();
                v.push(0x00);
                v.push(0x00);
                v.push(en);
                v.push(0x00);
                v.push(0x20);
                v.push(
                    if self.rom_bank_number == 0x01 {
                        0x00
                    } else {
                        self.rom_bank_number
                    },
                );
                v.push(0x00);
                v.push(0x40);
                v.push(self.ram_rom_bank_number);
                proof {
                    assert(Some(v@) =~~= self@.spec_bess_mbc_block());
                }
                Some(v)
            },
            MemoryBank::MBC5 => {
                let mut v: Vec<u8> = Vec::new();
                v.push(0x00);
                v.push(0x00);
                v.push(en);
                v.push(0x00);
                v.push(0x20);
                v.push(self.rom_bank_number);
                v.push(0x00);
                v.push(0x30);
                v.push(self.mbc5_rom_bank_top);
                v.push(0x00);
                v.push(0x40);
                v.push(self.ram_rom_bank_number);
                proof {
                    assert(Some(v@) =~~= self@.spec_bess_mbc_block());
                }
                Some(v)
            },
        }
    }

    /// Concatenate the large memory regions for a save-state file and
    /// record their size/offset pairs in `bess_buffer_offsets`.
    pub fn aggregate_buffers(&mut self) -> (r: Vec<u8>)
        requires
            old(self)@.wf(),
        ensures
            r@ == old(self)@.spec_bess_buffers(),
            final(self)@ == (MemView {
                bess_buffer_offsets: old(self)@.bess_buffer_offsets
                    + old(self)@.spec_bess_offsets(),
                ..old(self)@
            }),
            final(self)@.bess_buffer_offsets.len() == old(self)@.bess_buffer_offsets.len() + 40,
            r@.len() == 0x4000 + old(self)@.sram.len() + 0x11F,
            final(self)@.wf(),
    {
        proof {
            reveal(MemView::spec_bess_offsets);
        }
        let mut buffers: Vec<u8> = Vec::new();
        append_u32le(&mut self.bess_buffer_offsets, 0x2000);
        append_u32le(&mut self.bess_buffer_offsets, 0);
        append_bytes(&mut buffers, &self.wram);
        append_u32le(&mut self.bess_buffer_offsets, 0x2000);
        append_u32le(&mut self.bess_buffer_offsets, 0x2000);
        append_bytes(&mut buffers, &self.ppu.vram);
        append_u32le(&mut self.bess_buffer_offsets, self.sram.len() as u32);
        append_u32le(&mut self.bess_buffer_offsets, 0x4000);
        append_bytes(&mut buffers, &self.sram);
        append_u32le(&mut self.bess_buffer_offsets, 160);
        append_u32le(&mut self.bess_buffer_offsets, (0x4000 + self.sram.len()) as u32);
        append_bytes(&mut buffers, &self.ppu.oam);
        append_u32le(&mut self.bess_buffer_offsets, 0x7F);
        append_u32le(&mut self.bess_buffer_offsets, (0x40A0 + self.sram.len()) as u32);
        append_bytes(&mut buffers, &self.hram);
        proof {
            assert(buffers@ =~= old(self)@.spec_bess_buffers());
            assert(self.bess_buffer_offsets@ =~= old(self)@.bess_buffer_offsets + old(
                self,
            )@.spec_bess_offsets());
            assert(self@ =~~= (MemView {
                bess_buffer_offsets: old(self)@.bess_buffer_offsets + old(
                    self,
                )@.spec_bess_offsets(),
                ..old(self)@
            }));
        }
        buffers
    }

    /// The latched frame: 23,040 color indices, row by row.
    pub fn get_display(&self) -> (r: Vec<u8>)
        ensures
            r@ == self@.ppu.lcd,
    {
        clone_bytes(&self.ppu.lcd)
    }

    /// Hand out and clear the debug panel.
    pub fn get_debug_panel(&mut self) -> (r: Vec<usize>)
        requires
            old(self)@.wf(),
        ensures
            r@ == old(self)@.debug_panel,
            final(self)@ == (MemView {
                debug_panel: Seq::new(432, |i: int| 0usize),
                ..old(self)@
            }),
            final(self)@.wf(),
    {
        let mut fresh = zero_usizes(432);
        core::mem::swap(&mut self.debug_panel, &mut fresh);
        proof {
            assert(self.debug_panel@ =~= Seq::new(432, |i: int| 0usize));
            assert(self@ =~~= (MemView {
                debug_panel: Seq::new(432, |i: int| 0usize),
                ..old(self)@
            }));
        }
        fresh
    }

    /// Whether the PPU latched a finished frame since the last poll; polls
    /// consume the latch.
    pub fn is_frame_rendered(&mut self) -> (r: bool)
        requires
            old(self)@.wf(),
        ensures
            r == old(self)@.ppu.rendered_frame,
            final(self)@ == (MemView {
                ppu: PpuView { rendered_frame: false, ..old(self)@.ppu },
                ..old(self)@
            }),
            final(self)@.wf(),
    {
        let r = self.ppu.rendered_frame;
        self.ppu.rendered_frame = false;
        proof {
            assert(self@ =~~= (MemView {
                ppu: PpuView { rendered_frame: false, ..old(self)@.ppu },
                ..old(self)@
            }));
        }
        r
    }
}

/// The power-on bus state: no cartridge, cleared RAM, the PPU and timer
/// at reset, bank controls zeroed, no interrupts pending.
pub open spec fn spec_power_on_mem() -> MemView {
    MemView {
        rom: Seq::empty(),
        wram: Seq::new(0x2000, |i: int| 0u8),
        hram: Seq::new(0x7F, |i: int| 0u8),
        sram: Seq::empty(),
        boot_rom: Seq::new(0x100, |i: int| 0u8),
        boot_rom_mounted: false,
        mbc_ram_enabled: false,
        memory_bank: MemoryBank::MBCNONE,
        banking_mode: BankingMode::SIMPLE,
        rom_bank_number: 0,
        mbc5_rom_bank_top: 0,
        ram_rom_bank_number: 0,
        ie_reg: 0,
        if_reg: 0,
        keypress: -1i8,
        joyp: 0,
        prev_stat_line: false,
        prev_buttons: 0xF,
        bess_buffer_offsets: Seq::empty(),
        debug_panel: Seq::new(432, |i: int| 0usize),
        ppu: crate::ppu::spec_power_on_ppu(),
        timer: Timer { tima_irq: 0, sysclock: 0, tima: 0, tma: 0, tac: 0, edge_signal: false },
    }
}

impl Default for Memory {
    /// The power-on bus: no cartridge, cleared RAM, PPU and timer at
    /// reset, no interrupts pending.
    fn default() -> (m: Memory)
        ensures
            m@ == spec_power_on_mem(),
            m@.wf(),
    {
        let m = Memory {
            rom_chip: Vec::new(),
            wram: zero_bytes(0x2000),
            hram: zero_bytes(0x7F),
            sram: Vec::new(),
            boot_rom: zero_bytes(0x100),
            boot_rom_mounted: false,
            mbc_ram_enabled: false,
            memory_bank: MemoryBank::MBCNONE,
            banking_mode: BankingMode::SIMPLE,
            rom_bank_number: 0,
            mbc5_rom_bank_top: 0,
            ram_rom_bank_number: 0,
            ie_reg: 0,
            if_reg: 0,
            keypress: -1,
            joyp: 0,
            prev_stat_line: false,
            prev_buttons: 0xF,
            bess_buffer_offsets: Vec::new(),
            debug_panel: zero_usizes(432),
            ppu: PPU::default(),
            timer: Timer::default(),
        };
        proof {
            assert(m@.wram =~= spec_power_on_mem().wram);
            assert(m@.hram =~= spec_power_on_mem().hram);
            assert(m@.boot_rom =~= spec_power_on_mem().boot_rom);
            assert(m@.sram =~= spec_power_on_mem().sram);
            assert(m@.rom =~= spec_power_on_mem().rom);
            assert(m@.bess_buffer_offsets =~= spec_power_on_mem().bess_buffer_offsets);
            assert(m@.debug_panel =~= spec_power_on_mem().debug_panel);
            assert(m@ =~= spec_power_on_mem());
        }
        m
    }
}

} // verus!
