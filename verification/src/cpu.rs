//! The CPU executor: a fetch/decode/execute machine-cycle dispatcher. On
//! each machine cycle it performs exactly one micro-op of the in-flight
//! instruction (or one step of the five-cycle interrupt dispatch, or one
//! stalled HALT cycle), then the bus ticks the PPU and timer, and the
//! interrupt edges are sampled.
use crate::alu::rl_byte;
use crate::alu::rlc_byte;
use crate::alu::rr_byte;
use crate::alu::rrc_byte;
use crate::alu::spec_alu_adc;
use crate::alu::spec_alu_add;
use crate::alu::spec_alu_add_hl;
use crate::alu::spec_alu_and;
use crate::alu::spec_alu_cp;
use crate::alu::spec_alu_daa;
use crate::alu::spec_alu_dec;
use crate::alu::spec_alu_inc;
use crate::alu::spec_alu_or;
use crate::alu::spec_alu_sbc;
use crate::alu::spec_alu_sub;
use crate::alu::spec_alu_xor;
use crate::alu::spec_rl_byte;
use crate::alu::spec_rlc_byte;
use crate::alu::spec_rot_flags;
use crate::alu::spec_rr_byte;
use crate::alu::spec_rrc_byte;
use crate::alu::spec_sra_byte;
use crate::alu::spec_swap_byte;
use crate::alu::sra_byte;
use crate::alu::swap_byte;
use crate::decode::decode;
use crate::decode::decode_prefix;
use crate::decode::spec_decode;
use crate::decode::spec_decode_prefix;
use crate::memory::MemView;
use crate::ppu::PpuView;
use crate::memory::Memory;
use crate::micro::Byte;
use crate::micro::MicroInstr;
use crate::registers::Flag;
use crate::registers::Register;
use crate::registers::Registers;
use vstd::prelude::*;

verus! {

/// One of the five interrupt sources, in priority order.
#[derive(Clone, Copy, PartialEq, Eq, Structural, Debug)]
pub enum Interrupt {
    VBLANK,
    STAT,
    TIMER,
    SERIAL,
    JOYPAD,
}

/// The in-flight interrupt dispatch: two idle cycles, push PC high, push
/// PC low, load the vector.
#[derive(Clone, Copy, PartialEq, Eq, Structural, Debug)]
pub struct InterruptTickState {
    pub interrupt: Interrupt,
    pub step: u8,
}

/// The in-flight instruction: its micro-op queue, the next step, and the
/// two scratch bytes that immediates and pops flow through.
pub struct TickState {
    pub is_prefix: bool,
    pub instr: Vec<MicroInstr>,
    pub step: usize,
    pub b8: u8,
    pub b16: u8,
}

/// The mathematical state of an in-flight instruction.
#[verifier::ext_equal]
pub struct TickView {
    pub is_prefix: bool,
    pub instr: Seq<MicroInstr>,
    pub step: usize,
    pub b8: u8,
    pub b16: u8,
}

impl View for TickState {
    type V = TickView;

    open spec fn view(&self) -> TickView {
        TickView {
            is_prefix: self.is_prefix,
            instr: self.instr@,
            step: self.step,
            b8: self.b8,
            b16: self.b16,
        }
    }
}

/// The mathematical state of the whole core.
#[verifier::ext_equal]
pub struct CpuView {
    pub regs: Registers,
    pub pc: u16,
    pub sp: u16,
    pub bus: MemView,
    pub ime: bool,
    pub should_enable_ime: u8,
    pub tick: Option<TickView>,
    pub int_state: Option<InterruptTickState>,
    pub halted: bool,
    pub halt_bug: bool,
    pub fault: bool,
}

/// The core: the register file, PC and SP, the bus, the interrupt master
/// enable with its two-step EI latch, the in-flight instruction or
/// interrupt dispatch, the HALT state and the halt-bug latch, and the
/// fault latch for reserved opcodes.
pub struct CPU {
    pub registers: Registers,
    pub pc: u16,
    pub sp: u16,
    pub bus: Memory,
    pub ime: bool,
    pub should_enable_ime: u8,
    pub tick_state: Option<TickState>,
    pub interrupt_tick_state: Option<InterruptTickState>,
    pub is_halted: bool,
    pub halt_bug: bool,
    pub fault: bool,
}

impl View for CPU {
    type V = CpuView;

    open spec fn view(&self) -> CpuView {
        CpuView {
            regs: self.registers,
            pc: self.pc,
            sp: self.sp,
            bus: self.bus@,
            ime: self.ime,
            should_enable_ime: self.should_enable_ime,
            tick: match self.tick_state {
                Some(ref t) => Some(t@),
                None => None,
            },
            int_state: self.interrupt_tick_state,
            halted: self.is_halted,
            halt_bug: self.halt_bug,
            fault: self.fault,
        }
    }
}

/// PC plus a signed 8-bit displacement, wrapping at 16 bits.
pub open spec fn spec_add_signed8(x: u16, b: u8) -> u16 {
    if b < 128 {
        x.wrapping_add(b as u16)
    } else {
        x.wrapping_add(b as u16).wrapping_sub(256)
    }
}

fn add_signed8(x: u16, b: u8) -> (r: u16)
    ensures
        r == spec_add_signed8(x, b),
{
    if b < 128 {
        x.wrapping_add(b as u16)
    } else {
        x.wrapping_add(b as u16).wrapping_sub(256)
    }
}

/// The interrupt vector: 0x40 + 8 * the priority index.
pub open spec fn spec_vector(i: Interrupt) -> u16 {
    match i {
        Interrupt::VBLANK => 0x40,
        Interrupt::STAT => 0x48,
        Interrupt::TIMER => 0x50,
        Interrupt::SERIAL => 0x58,
        Interrupt::JOYPAD => 0x60,
    }
}

/// The lowest-set-bit interrupt of a nonzero five-bit pending mask.
pub open spec fn spec_lowest_interrupt(bits: u8) -> Interrupt {
    if bits & 0x01 != 0 {
        Interrupt::VBLANK
    } else if bits & 0x02 != 0 {
        Interrupt::STAT
    } else if bits & 0x04 != 0 {
        Interrupt::TIMER
    } else if bits & 0x08 != 0 {
        Interrupt::SERIAL
    } else {
        Interrupt::JOYPAD
    }
}

/// The IF mask that acknowledges one interrupt.
pub open spec fn spec_if_mask(i: Interrupt) -> u8 {
    match i {
        Interrupt::VBLANK => 0xFE,
        Interrupt::STAT => 0xFD,
        Interrupt::TIMER => 0xFB,
        Interrupt::SERIAL => 0xF7,
        Interrupt::JOYPAD => 0xEF,
    }
}

impl CpuView {
    /// Well-formedness: a well-formed bus.
    pub open spec fn wf(self) -> bool {
        self.bus.wf()
    }

    /// The address selected by a load micro-op: the 16-bit immediate when
    /// the preset is the zero sentinel, the preset ORed with the low
    /// scratch byte for 0xFF00-page accesses, else the preset itself.
    pub open spec fn spec_ld_addr(preset: u16, is_offset: bool, b8: u8, b16: u8) -> u16 {
        if preset == 0 {
            ((b16 as u16) << 8) | (b8 as u16)
        } else if is_offset {
            preset | (b8 as u16)
        } else {
            preset
        }
    }

    /// Instruction retirement: the delayed EI latch steps down, enabling
    /// IME when it reaches zero.
    pub open spec fn spec_retire(self) -> CpuView {
        if self.should_enable_ime > 0 {
            let p = (self.should_enable_ime - 1) as u8;
            CpuView {
                should_enable_ime: p,
                ime: if p == 0 {
                    true
                } else {
                    self.ime
                },
                ..self
            }
        } else {
            self
        }
    }

    /// The opcode fetch: read at PC, advance PC (unless the halt bug eats
    /// the increment), decode; a reserved opcode freezes the core. 0xCB
    /// leaves an empty queue marked prefixed.
    #[verifier::opaque]
    pub open spec fn spec_fetch(self) -> CpuView {
        let opcode = self.bus.spec_read(self.pc);
        let c1 = if self.halt_bug {
            CpuView { halt_bug: false, ..self }
        } else {
            CpuView { pc: self.pc.wrapping_add(1), ..self }
        };
        match spec_decode(opcode, c1.regs, c1.pc, c1.sp) {
            None => CpuView { fault: true, ..c1 },
            Some(q) => CpuView {
                tick: Some(
                    TickView { is_prefix: opcode == 0xCB, instr: q, step: 0, b8: 0, b16: 0 },
                ),
                ..c1
            },
        }
    }

    /// The load/store micro-ops; `Read` pulls an immediate byte into the
    /// scratch pair.
    #[verifier::opaque]
    pub open spec fn spec_micro_load(self, t: TickView, m: MicroInstr) -> (CpuView, TickView) {
        let c = self;
        let hl = c.regs.spec_hl();
        match m {
            MicroInstr::Read(byte) => {
                let b = c.bus.spec_read(c.pc);
                let t1 = match byte {
                    Byte::LSB => TickView { b8: b, ..t },
                    Byte::MSB => TickView { b16: b, ..t },
                };
                (CpuView { pc: c.pc.wrapping_add(1), ..c }, t1)
            },
            MicroInstr::LDRN(reg) => {
                let b = c.bus.spec_read(c.pc);
                (
                    CpuView { regs: c.regs.spec_set(reg, b), pc: c.pc.wrapping_add(1), ..c },
                    t,
                )
            },
            MicroInstr::LDRR(r1, r2) => (
                CpuView { regs: c.regs.spec_set(r1, c.regs.spec_get(r2)), ..c },
                t,
            ),
            MicroInstr::LDAHLINC => {
                let b = c.bus.spec_read(hl);
                let regs1 = c.regs.spec_set(Register::A, b);
                (CpuView { regs: regs1.spec_set_hl(hl.wrapping_add(1)), ..c }, t)
            },
            MicroInstr::LDAHLDEC => {
                let b = c.bus.spec_read(hl);
                let regs1 = c.regs.spec_set(Register::A, b);
                (CpuView { regs: regs1.spec_set_hl(hl.wrapping_sub(1)), ..c }, t)
            },
            MicroInstr::LDHLINCA => {
                let bus1 = c.bus.spec_write(hl, c.regs.a);
                (
                    CpuView { bus: bus1, regs: c.regs.spec_set_hl(hl.wrapping_add(1)), ..c },
                    t,
                )
            },
            MicroInstr::LDHLDECA => {
                let bus1 = c.bus.spec_write(hl, c.regs.a);
                (
                    CpuView { bus: bus1, regs: c.regs.spec_set_hl(hl.wrapping_sub(1)), ..c },
                    t,
                )
            },
            MicroInstr::LDNNR(preset, reg, is_offset) => {
                let addr = Self::spec_ld_addr(preset, is_offset, t.b8, t.b16);
                (CpuView { bus: c.bus.spec_write(addr, c.regs.spec_get(reg)), ..c }, t)
            },
            MicroInstr::LDRNN(reg, preset, is_offset) => {
                let addr = Self::spec_ld_addr(preset, is_offset, t.b8, t.b16);
                (CpuView { regs: c.regs.spec_set(reg, c.bus.spec_read(addr)), ..c }, t)
            },
            MicroInstr::LDHLN => (CpuView { bus: c.bus.spec_write(hl, t.b8), ..c }, t),
            MicroInstr::LDSPNN => (
                CpuView { sp: ((t.b16 as u16) << 8) | (t.b8 as u16), ..c },
                t,
            ),
            MicroInstr::LDNNSP(byte) => {
                let addr = ((t.b16 as u16) << 8) | (t.b8 as u16);
                match byte {
                    Byte::LSB => (
                        CpuView { bus: c.bus.spec_write(addr, (c.sp & 0xFF) as u8), ..c },
                        t,
                    ),
                    Byte::MSB => (
                        CpuView {
                            bus: c.bus.spec_write(addr.wrapping_add(1), (c.sp >> 8) as u8),
                            ..c
                        },
                        t,
                    ),
                }
            },
            MicroInstr::LDSPHL => (CpuView { sp: hl, ..c }, t),
            _ => {
                // LDHLSPN
                let r1 = c.regs.spec_set_flag(Flag::Z, false);
                let r2 = r1.spec_set_flag(Flag::N, false);
                let r3 = r2.spec_set_flag(Flag::H, (c.sp % 16) + ((t.b8 & 0x0F) as u16) > 0x0F);
                let r4 = r3.spec_set_flag(Flag::C, (c.sp % 256) + (t.b8 as u16) > 0xFF);
                (
                    CpuView { regs: r4.spec_set_hl(spec_add_signed8(c.sp, t.b8)), ..c },
                    t,
                )
            },
        }
    }

    /// The 8- and 16-bit increment and decrement micro-ops.
    #[verifier::opaque]
    pub open spec fn spec_micro_incdec(self, m: MicroInstr) -> CpuView {
        let c = self;
        let hl = c.regs.spec_hl();
        match m {
            MicroInstr::INC(reg) => CpuView { regs: spec_alu_inc(c.regs, reg), ..c },
            MicroInstr::DEC(reg) => CpuView { regs: spec_alu_dec(c.regs, reg), ..c },
            MicroInstr::INCHLADDR => {
                let b = c.bus.spec_read(hl);
                let r1 = c.regs.spec_set_flag(Flag::Z, b.wrapping_add(1) == 0);
                let r2 = r1.spec_set_flag(Flag::N, false);
                let r3 = r2.spec_set_flag(Flag::H, ((b & 0xF).wrapping_add(1)) & 0x10 == 0x10);
                CpuView { regs: r3, bus: c.bus.spec_write(hl, b.wrapping_add(1)), ..c }
            },
            MicroInstr::DECNN(addr) => {
                let b = c.bus.spec_read(addr);
                let r1 = c.regs.spec_set_flag(Flag::Z, b.wrapping_sub(1) == 0);
                let r2 = r1.spec_set_flag(Flag::N, true);
                let r3 = r2.spec_set_flag(Flag::H, ((b & 0xF).wrapping_sub(1)) & 0x10 == 0x10);
                CpuView { regs: r3, bus: c.bus.spec_write(addr, b.wrapping_sub(1)), ..c }
            },
            MicroInstr::INCHL => CpuView { regs: c.regs.spec_set_hl(hl.wrapping_add(1)), ..c },
            MicroInstr::DECHL => CpuView { regs: c.regs.spec_set_hl(hl.wrapping_sub(1)), ..c },
            MicroInstr::INCBC => CpuView {
                regs: c.regs.spec_set_bc(c.regs.spec_bc().wrapping_add(1)),
                ..c
            },
            MicroInstr::DECBC => CpuView {
                regs: c.regs.spec_set_bc(c.regs.spec_bc().wrapping_sub(1)),
                ..c
            },
            MicroInstr::INCDE => CpuView {
                regs: c.regs.spec_set_de(c.regs.spec_de().wrapping_add(1)),
                ..c
            },
            MicroInstr::DECDE => CpuView {
                regs: c.regs.spec_set_de(c.regs.spec_de().wrapping_sub(1)),
                ..c
            },
            MicroInstr::INCSP => CpuView { sp: c.sp.wrapping_add(1), ..c },
            _ => CpuView { sp: c.sp.wrapping_sub(1), ..c },  // DECSP
        }
    }

    /// The jump, call, return and stack micro-ops.
    #[verifier::opaque]
    pub open spec fn spec_micro_flow(self, t: TickView, m: MicroInstr) -> (CpuView, TickView) {
        let c = self;
        let imm16 = ((t.b16 as u16) << 8) | (t.b8 as u16);
        match m {
            MicroInstr::JP => (CpuView { pc: imm16, ..c }, t),
            MicroInstr::JPHL => (CpuView { pc: c.regs.spec_hl(), ..c }, t),
            MicroInstr::JR => (CpuView { pc: spec_add_signed8(c.pc, t.b8), ..c }, t),
            MicroInstr::PUSH(val) => {
                let sp2 = c.sp.wrapping_sub(1);
                (CpuView { sp: sp2, bus: c.bus.spec_write(sp2, val), ..c }, t)
            },
            MicroInstr::POPPC(byte) => {
                let b = c.bus.spec_read(c.sp);
                let t1 = match byte {
                    Byte::LSB => TickView { b8: b, ..t },
                    Byte::MSB => TickView { b16: b, ..t },
                };
                (CpuView { sp: c.sp.wrapping_add(1), ..c }, t1)
            },
            MicroInstr::POPR(reg) => {
                let b = c.bus.spec_read(c.sp);
                let v = if reg == Register::F {
                    b & 0xF0
                } else {
                    b
                };
                (
                    CpuView { regs: c.regs.spec_set(reg, v), sp: c.sp.wrapping_add(1), ..c },
                    t,
                )
            },
            MicroInstr::RST(addr) => (CpuView { pc: addr, ..c }, t),
            MicroInstr::RETI => (
                CpuView { pc: imm16, should_enable_ime: 2, ..c },
                t,
            ),
            _ => {
                // ADDSPN
                let r1 = c.regs.spec_set_flag(Flag::Z, false);
                let r2 = r1.spec_set_flag(Flag::N, false);
                let r3 = r2.spec_set_flag(Flag::H, (c.sp % 16) + ((t.b8 & 0x0F) as u16) > 0x0F);
                let r4 = r3.spec_set_flag(Flag::C, (c.sp % 256) + (t.b8 as u16) > 0xFF);
                (
                    CpuView { regs: r4, sp: spec_add_signed8(c.sp, t.b8), ..c },
                    t,
                )
            },
        }
    }

    /// The eight-operation ALU micro-ops over registers, the immediate
    /// scratch byte and `(HL)`, plus the 16-bit ADD HL and DAA.
    #[verifier::opaque]
    pub open spec fn spec_micro_alu(self, b8: u8, m: MicroInstr) -> CpuView {
        let c = self;
        let mem = c.bus.spec_read(c.regs.spec_hl());
        match m {
            MicroInstr::ADD(reg) => CpuView {
                regs: spec_alu_add(c.regs, c.regs.spec_get(reg)),
                ..c
            },
            MicroInstr::ADDN => CpuView { regs: spec_alu_add(c.regs, b8), ..c },
            MicroInstr::ADDHL => CpuView { regs: spec_alu_add(c.regs, mem), ..c },
            MicroInstr::ADC(reg) => CpuView {
                regs: spec_alu_adc(c.regs, c.regs.spec_get(reg)),
                ..c
            },
            MicroInstr::ADCN => CpuView { regs: spec_alu_adc(c.regs, b8), ..c },
            MicroInstr::ADCHL => CpuView { regs: spec_alu_adc(c.regs, mem), ..c },
            MicroInstr::SUB(reg) => CpuView {
                regs: spec_alu_sub(c.regs, c.regs.spec_get(reg)),
                ..c
            },
            MicroInstr::SUBN => CpuView { regs: spec_alu_sub(c.regs, b8), ..c },
            MicroInstr::SUBHL => CpuView { regs: spec_alu_sub(c.regs, mem), ..c },
            MicroInstr::SBC(reg) => CpuView {
                regs: spec_alu_sbc(c.regs, c.regs.spec_get(reg)),
                ..c
            },
            MicroInstr::SBCN => CpuView { regs: spec_alu_sbc(c.regs, b8), ..c },
            MicroInstr::SBCHL => CpuView { regs: spec_alu_sbc(c.regs, mem), ..c },
            MicroInstr::AND(reg) => CpuView {
                regs: spec_alu_and(c.regs, c.regs.spec_get(reg)),
                ..c
            },
            MicroInstr::ANDN => CpuView { regs: spec_alu_and(c.regs, b8), ..c },
            MicroInstr::ANDHL => CpuView { regs: spec_alu_and(c.regs, mem), ..c },
            MicroInstr::OR(reg) => CpuView {
                regs: spec_alu_or(c.regs, c.regs.spec_get(reg)),
                ..c
            },
            MicroInstr::ORN => CpuView { regs: spec_alu_or(c.regs, b8), ..c },
            MicroInstr::ORHL => CpuView { regs: spec_alu_or(c.regs, mem), ..c },
            MicroInstr::XOR(reg) => CpuView {
                regs: spec_alu_xor(c.regs, c.regs.spec_get(reg)),
                ..c
            },
            MicroInstr::XORN => CpuView { regs: spec_alu_xor(c.regs, b8), ..c },
            MicroInstr::XORHL => CpuView { regs: spec_alu_xor(c.regs, mem), ..c },
            MicroInstr::CP(reg) => CpuView {
                regs: spec_alu_cp(c.regs, c.regs.spec_get(reg)),
                ..c
            },
            MicroInstr::CPN => CpuView { regs: spec_alu_cp(c.regs, b8), ..c },
            MicroInstr::CPHL => CpuView { regs: spec_alu_cp(c.regs, mem), ..c },
            MicroInstr::ADDHLNN(v) => CpuView { regs: spec_alu_add_hl(c.regs, v), ..c },
            _ => CpuView { regs: spec_alu_daa(c.regs), ..c },  // DAA
        }
    }

    /// The rotate, shift, swap and bit micro-ops on registers and `(HL)`.
    /// The `(HL)` forms re-read the written byte for the Z flag, exactly
    /// as the bus answers during blocked modes.
    #[verifier::opaque]
    pub open spec fn spec_micro_rot(self, m: MicroInstr) -> CpuView {
        let c = self;
        let hl = c.regs.spec_hl();
        let mem = c.bus.spec_read(hl);
        let carry = c.regs.spec_get_flag(Flag::C) == 1;
        match m {
            MicroInstr::SRLR(reg) => {
                let b = c.regs.spec_get(reg);
                let res = b >> 1;
                let r1 = c.regs.spec_set_flag(Flag::C, b & 0x1 == 1).spec_set(reg, res);
                let r2 = r1.spec_set_flag(Flag::Z, res == 0).spec_set_flag(Flag::N, false);
                CpuView { regs: r2.spec_set_flag(Flag::H, false), ..c }
            },
            MicroInstr::SRLHL => {
                let bus1 = c.bus.spec_write(hl, mem >> 1);
                let b2 = bus1.spec_read(hl);
                let r1 = c.regs.spec_set_flag(Flag::C, mem & 0x1 == 1);
                let r2 = r1.spec_set_flag(Flag::Z, b2 == 0).spec_set_flag(Flag::N, false);
                CpuView { regs: r2.spec_set_flag(Flag::H, false), bus: bus1, ..c }
            },
            MicroInstr::RRR(reg) => {
                let b = c.regs.spec_get(reg);
                let res = spec_rr_byte(b, carry);
                CpuView {
                    regs: spec_rot_flags(c.regs.spec_set(reg, res), res == 0, b & 0x1 == 1),
                    ..c
                }
            },
            MicroInstr::RRA => {
                let b = c.regs.a;
                let res = spec_rr_byte(b, carry);
                CpuView {
                    regs: spec_rot_flags(
                        c.regs.spec_set(Register::A, res),
                        false,
                        b & 0x1 == 1,
                    ),
                    ..c
                }
            },
            MicroInstr::RRHL => {
                let bus1 = c.bus.spec_write(hl, mem >> 1);
                let b1 = bus1.spec_read(hl);
                let bus2 = bus1.spec_write(
                    hl,
                    if carry {
                        b1 | 0x80
                    } else {
                        b1 & 0x7F
                    },
                );
                let b2 = bus2.spec_read(hl);
                CpuView { regs: spec_rot_flags(c.regs, b2 == 0, mem & 0x1 == 1), bus: bus2, ..c }
            },
            MicroInstr::RRCR(reg) => {
                let b = c.regs.spec_get(reg);
                let res = spec_rrc_byte(b);
                CpuView {
                    regs: spec_rot_flags(c.regs.spec_set(reg, res), res == 0, b & 0x1 == 1),
                    ..c
                }
            },
            MicroInstr::RRCA => {
                let b = c.regs.a;
                let res = spec_rrc_byte(b);
                CpuView {
                    regs: spec_rot_flags(
                        c.regs.spec_set(Register::A, res),
                        false,
                        b & 0x1 == 1,
                    ),
                    ..c
                }
            },
            MicroInstr::RRCHL => {
                let bus1 = c.bus.spec_write(hl, spec_rrc_byte(mem));
                let b2 = bus1.spec_read(hl);
                CpuView { regs: spec_rot_flags(c.regs, b2 == 0, mem & 0x1 == 1), bus: bus1, ..c }
            },
            MicroInstr::RLCR(reg) => {
                let b = c.regs.spec_get(reg);
                let res = spec_rlc_byte(b);
                CpuView {
                    regs: spec_rot_flags(
                        c.regs.spec_set(reg, res),
                        res == 0,
                        (b >> 7) & 0x1 == 1,
                    ),
                    ..c
                }
            },
            MicroInstr::RLCA => {
                let b = c.regs.a;
                let res = spec_rlc_byte(b);
                CpuView {
                    regs: spec_rot_flags(
                        c.regs.spec_set(Register::A, res),
                        false,
                        (b >> 7) & 0x1 == 1,
                    ),
                    ..c
                }
            },
            MicroInstr::RLCHL => {
                let bus1 = c.bus.spec_write(hl, spec_rlc_byte(mem));
                let b2 = bus1.spec_read(hl);
                CpuView {
                    regs: spec_rot_flags(c.regs, b2 == 0, (mem >> 7) & 0x1 == 1),
                    bus: bus1,
                    ..c
                }
            },
            MicroInstr::RLR(reg) => {
                let b = c.regs.spec_get(reg);
                let res = spec_rl_byte(b, carry);
                CpuView {
                    regs: spec_rot_flags(
                        c.regs.spec_set(reg, res),
                        res == 0,
                        (b >> 7) & 0x1 == 1,
                    ),
                    ..c
                }
            },
            MicroInstr::RLA => {
                let b = c.regs.a;
                let res = spec_rl_byte(b, carry);
                CpuView {
                    regs: spec_rot_flags(
                        c.regs.spec_set(Register::A, res),
                        false,
                        (b >> 7) & 0x1 == 1,
                    ),
                    ..c
                }
            },
            MicroInstr::RLHL => {
                let bus1 = c.bus.spec_write(hl, spec_rl_byte(mem, carry));
                let b2 = bus1.spec_read(hl);
                CpuView {
                    regs: spec_rot_flags(c.regs, b2 == 0, (mem >> 7) & 0x1 == 1),
                    bus: bus1,
                    ..c
                }
            },
            MicroInstr::SLAR(reg) => {
                let b = c.regs.spec_get(reg);
                let res = b << 1;
                CpuView {
                    regs: spec_rot_flags(
                        c.regs.spec_set(reg, res),
                        res == 0,
                        (b >> 7) & 0x1 == 1,
                    ),
                    ..c
                }
            },
            MicroInstr::SLAHL => {
                let bus1 = c.bus.spec_write(hl, mem << 1);
                let b2 = bus1.spec_read(hl);
                CpuView {
                    regs: spec_rot_flags(c.regs, b2 == 0, (mem >> 7) & 0x1 == 1),
                    bus: bus1,
                    ..c
                }
            },
            MicroInstr::SRAR(reg) => {
                let b = c.regs.spec_get(reg);
                let res = spec_sra_byte(b);
                CpuView {
                    regs: spec_rot_flags(c.regs.spec_set(reg, res), res == 0, b & 0x1 == 1),
                    ..c
                }
            },
            MicroInstr::SRAHL => {
                let bus1 = c.bus.spec_write(hl, spec_sra_byte(mem));
                let b2 = bus1.spec_read(hl);
                CpuView { regs: spec_rot_flags(c.regs, b2 == 0, mem & 0x1 == 1), bus: bus1, ..c }
            },
            MicroInstr::SWAP(reg) => {
                let res = spec_swap_byte(c.regs.spec_get(reg));
                CpuView { regs: spec_rot_flags(c.regs.spec_set(reg, res), res == 0, false), ..c }
            },
            MicroInstr::SWAPHL => {
                let bus1 = c.bus.spec_write(hl, spec_swap_byte(mem));
                let b2 = bus1.spec_read(hl);
                CpuView { regs: spec_rot_flags(c.regs, b2 == 0, false), bus: bus1, ..c }
            },
            MicroInstr::BIT(pos, reg) => {
                let b = c.regs.spec_get(reg);
                let r1 = c.regs.spec_set_flag(Flag::Z, (b >> (pos % 8)) & 0x1 == 0);
                let r2 = r1.spec_set_flag(Flag::N, false);
                CpuView { regs: r2.spec_set_flag(Flag::H, true), ..c }
            },
            MicroInstr::BITHL(pos) => {
                let r1 = c.regs.spec_set_flag(Flag::Z, (mem >> (pos % 8)) & 0x1 == 0);
                let r2 = r1.spec_set_flag(Flag::N, false);
                CpuView { regs: r2.spec_set_flag(Flag::H, true), ..c }
            },
            MicroInstr::RES(pos, reg) => CpuView {
                regs: c.regs.spec_set(reg, c.regs.spec_get(reg) & !(1u8 << (pos % 8))),
                ..c
            },
            MicroInstr::RESHL(pos) => CpuView {
                bus: c.bus.spec_write(hl, mem & !(1u8 << (pos % 8))),
                ..c
            },
            MicroInstr::SET(pos, reg) => CpuView {
                regs: c.regs.spec_set(reg, c.regs.spec_get(reg) | (1u8 << (pos % 8))),
                ..c
            },
            _ => CpuView { bus: c.bus.spec_write(hl, mem | (1u8 << (pos_of(m) % 8))), ..c },
        }
    }

    /// The control micro-ops: flag tweaks, NOP, HALT with the halt bug,
    /// STOP (a two-byte no-op here), and the interrupt-enable latches. DI
    /// takes effect immediately and cancels a pending EI; EI arms the
    /// two-step latch, so the following instruction cannot be interrupted.
    #[verifier::opaque]
    pub open spec fn spec_micro_misc(self, m: MicroInstr) -> CpuView {
        let c = self;
        match m {
            MicroInstr::CPL => {
                let r1 = c.regs.spec_set_flag(Flag::N, true).spec_set_flag(Flag::H, true);
                CpuView { regs: Registers { a: !c.regs.a, ..r1 }, ..c }
            },
            MicroInstr::SCF => {
                let r1 = c.regs.spec_set_flag(Flag::N, false).spec_set_flag(Flag::H, false);
                CpuView { regs: r1.spec_set_flag(Flag::C, true), ..c }
            },
            MicroInstr::CCF => {
                let r1 = c.regs.spec_set_flag(Flag::N, false).spec_set_flag(Flag::H, false);
                CpuView {
                    regs: r1.spec_set_flag(Flag::C, c.regs.spec_get_flag(Flag::C) == 0),
                    ..c
                }
            },
            MicroInstr::NOP => c,
            MicroInstr::HALT => {
                if c.halted {
                    c
                } else if !c.ime && (c.bus.ie_reg & c.bus.if_reg & 0x1F) != 0 {
                    CpuView { halt_bug: true, ..c }
                } else {
                    CpuView { halted: true, ..c }
                }
            },
            MicroInstr::STOP => CpuView { pc: c.pc.wrapping_add(1), ..c },
            MicroInstr::DI => CpuView { ime: false, should_enable_ime: 0, ..c },
            _ => CpuView { should_enable_ime: 2, ..c },  // EI
        }
    }

    /// One micro-op, dispatched by group.
    pub open spec fn spec_micro(self, t: TickView, m: MicroInstr) -> (CpuView, TickView) {
        match m {
            MicroInstr::Read(_) | MicroInstr::LDRN(_) | MicroInstr::LDRR(_, _)
                | MicroInstr::LDAHLINC | MicroInstr::LDAHLDEC | MicroInstr::LDHLINCA
                | MicroInstr::LDHLDECA | MicroInstr::LDNNR(_, _, _) | MicroInstr::LDRNN(
                _,
                _,
                _,
            ) | MicroInstr::LDHLN | MicroInstr::LDSPNN | MicroInstr::LDNNSP(_)
                | MicroInstr::LDSPHL | MicroInstr::LDHLSPN => self.spec_micro_load(t, m),
            MicroInstr::INC(_) | MicroInstr::DEC(_) | MicroInstr::INCHLADDR
                | MicroInstr::DECNN(_) | MicroInstr::INCHL | MicroInstr::DECHL
                | MicroInstr::INCBC | MicroInstr::DECBC | MicroInstr::INCDE
                | MicroInstr::DECDE | MicroInstr::INCSP | MicroInstr::DECSP => (
                self.spec_micro_incdec(m),
                t,
            ),
            MicroInstr::JP | MicroInstr::JPHL | MicroInstr::JR | MicroInstr::PUSH(_)
                | MicroInstr::POPPC(_) | MicroInstr::POPR(_) | MicroInstr::RST(_)
                | MicroInstr::RETI | MicroInstr::ADDSPN => self.spec_micro_flow(t, m),
            MicroInstr::ADD(_) | MicroInstr::ADDN | MicroInstr::ADDHL | MicroInstr::ADC(_)
                | MicroInstr::ADCN | MicroInstr::ADCHL | MicroInstr::SUB(_) | MicroInstr::SUBN
                | MicroInstr::SUBHL | MicroInstr::SBC(_) | MicroInstr::SBCN
                | MicroInstr::SBCHL | MicroInstr::AND(_) | MicroInstr::ANDN
                | MicroInstr::ANDHL | MicroInstr::OR(_) | MicroInstr::ORN | MicroInstr::ORHL
                | MicroInstr::XOR(_) | MicroInstr::XORN | MicroInstr::XORHL | MicroInstr::CP(
                _,
            ) | MicroInstr::CPN | MicroInstr::CPHL | MicroInstr::ADDHLNN(_)
                | MicroInstr::DAA => (self.spec_micro_alu(t.b8, m), t),
            MicroInstr::CPL | MicroInstr::SCF | MicroInstr::CCF | MicroInstr::NOP
                | MicroInstr::HALT | MicroInstr::STOP | MicroInstr::DI | MicroInstr::EI
                | MicroInstr::Cond(_, _) => (self.spec_micro_misc(m), t),
            _ => (self.spec_micro_rot(m), t),
        }
    }

    /// The step/stall/retire logic after a micro-op: HALT stalls the step
    /// counter until an interrupt is both requested and enabled; a queue
    /// that runs out retires the instruction.
    #[verifier::opaque]
    pub open spec fn spec_post(self, t: TickView) -> CpuView {
        let c = self;
        if !c.halted {
            let t2 = TickView { step: (t.step + 1) as usize, ..t };
            if t2.step >= t2.instr.len() {
                c.spec_retire()
            } else {
                CpuView { tick: Some(t2), ..c }
            }
        } else if (c.bus.ie_reg & c.bus.if_reg & 0x1F) != 0 {
            let c2 = CpuView { halted: false, ..c };
            let t2 = TickView { step: (t.step + 1) as usize, ..t };
            if t2.step >= t2.instr.len() {
                c2.spec_retire()
            } else {
                CpuView { tick: Some(t2), ..c2 }
            }
        } else {
            CpuView { tick: Some(t), ..c }
        }
    }

    /// One executor machine cycle: fetch when idle (freezing on reserved
    /// opcodes), replace the queue on the CB prefix, execute one micro-op
    /// (a failed condition truncates the queue and retires at once,
    /// without stepping the EI latch), then step, stall or retire.
    #[verifier::opaque]
    pub open spec fn spec_execute(self) -> CpuView {
        let c = self;
        if c.fault {
            c
        } else {
            let c0 = if c.tick is None {
                c.spec_fetch()
            } else {
                c
            };
            if c0.fault {
                c0
            } else {
                let t = c0.tick.unwrap();
                if t.is_prefix {
                    let opcode = c0.bus.spec_read(c0.pc);
                    CpuView {
                        pc: c0.pc.wrapping_add(1),
                        tick: Some(
                            TickView {
                                is_prefix: false,
                                instr: spec_decode_prefix(opcode),
                                step: 0,
                                b8: 0,
                                b16: 0,
                            },
                        ),
                        ..c0
                    }
                } else {
                    let c_base = CpuView { tick: None, ..c0 };
                    c_base.spec_exec_micro_step(t)
                }
            }
        }
    }

    /// One micro-op of an in-flight queue plus the step/stall/retire
    /// logic; a failed condition truncates the queue and retires at once,
    /// without stepping the EI latch.
    #[verifier::opaque]
    pub open spec fn spec_exec_micro_step(self, t: TickView) -> CpuView {
        let c_base = self;
        if t.step >= t.instr.len() {
            c_base.spec_retire()
        } else {
            let m = t.instr[t.step as int];
            match m {
                MicroInstr::Cond(flag, expected) => {
                    let want: u8 = if expected {
                        1
                    } else {
                        0
                    };
                    if c_base.regs.spec_get_flag(flag) != want {
                        c_base
                    } else {
                        c_base.spec_post(t)
                    }
                },
                _ => {
                    let r = c_base.spec_micro(t, m);
                    r.0.spec_post(r.1)
                },
            }
        }
    }

    /// One step of the five-cycle interrupt dispatch: two idle cycles, the
    /// PC pushed high byte then low byte, then the vector loaded.
    #[verifier::opaque]
    pub open spec fn spec_execute_interrupt(self) -> CpuView {
        let c = self;
        match c.int_state {
            None => c,
            Some(st) => {
                if st.step < 2 {
                    CpuView {
                        int_state: Some(
                            InterruptTickState { step: (st.step + 1) as u8, ..st },
                        ),
                        ..c
                    }
                } else if st.step == 2 {
                    let sp2 = c.sp.wrapping_sub(1);
                    CpuView {
                        sp: sp2,
                        bus: c.bus.spec_write(sp2, (c.pc >> 8) as u8),
                        int_state: Some(InterruptTickState { step: 3, ..st }),
                        ..c
                    }
                } else if st.step == 3 {
                    let sp2 = c.sp.wrapping_sub(1);
                    CpuView {
                        sp: sp2,
                        bus: c.bus.spec_write(sp2, (c.pc & 0xFF) as u8),
                        int_state: Some(InterruptTickState { step: 4, ..st }),
                        ..c
                    }
                } else {
                    CpuView { pc: spec_vector(st.interrupt), int_state: None, ..c }
                }
            },
        }
    }

    /// The between-instruction dispatch check: with IME set, no micro-op
    /// in flight and a requested-and-enabled interrupt pending, the
    /// lowest-priority-index interrupt is acknowledged (its IF bit
    /// cleared, IME dropped) and the five-step dispatch begins.
    #[verifier::opaque]
    pub open spec fn spec_check_interrupts(self) -> CpuView {
        let c = self;
        let pending = c.bus.ie_reg & c.bus.if_reg & 0x1F;
        if c.ime && c.tick is None && pending != 0 {
            let i = spec_lowest_interrupt(pending);
            CpuView {
                bus: MemView { if_reg: c.bus.if_reg & spec_if_mask(i), ..c.bus },
                ime: false,
                int_state: if c.int_state is None {
                    Some(InterruptTickState { interrupt: i, step: 0 })
                } else {
                    c.int_state
                },
                ..c
            }
        } else {
            c
        }
    }

    /// One full machine cycle: one executor or dispatch step, then the
    /// bus ticks the PPU four dots and the timer four counts, then the
    /// interrupt flags are recomputed and the dispatch check runs.
    #[verifier::opaque]
    pub open spec fn spec_cycle(self) -> CpuView {
        let c1 = if self.int_state is Some {
            self.spec_execute_interrupt()
        } else {
            self.spec_execute()
        };
        let c2 = CpuView {
            bus: c1.bus.spec_update_components().spec_update_requested_interrupts(),
            ..c1
        };
        c2.spec_check_interrupts()
    }

    /// The core after `n` machine cycles.
    pub open spec fn spec_run(self, n: nat) -> CpuView
        decreases n,
    {
        if n == 0 {
            self
        } else {
            self.spec_run((n - 1) as nat).spec_cycle()
        }
    }
}

/// What `next_frame`'s cycle count satisfies: no earlier cycle latched a
/// frame or froze the core, and cycle `n` did one or the other, unless
/// the budget ran out first.
#[verifier::opaque]
pub open spec fn spec_frame_trace_ok(start: CpuView, n: nat) -> bool {
    &&& n <= 1000000
    &&& (forall|k: nat|
        k < n ==> !start.spec_run(k).bus.ppu.rendered_frame && !start.spec_run(k).fault)
    &&& (start.spec_run(n).bus.ppu.rendered_frame || start.spec_run(n).fault || n == 1000000)
}

/// The core as `next_frame` leaves it: the state after `n` machine
/// cycles, with the frame latch consumed.
#[verifier::opaque]
pub open spec fn spec_frame_outcome(start: CpuView, n: nat) -> CpuView {
    let c = start.spec_run(n);
    CpuView {
        bus: MemView {
            ppu: PpuView { rendered_frame: false, ..c.bus.ppu },
            ..c.bus
        },
        ..c
    }
}

/// The bit-position payload of a SETHL micro-op (the default arm of the
/// rotate group).
pub open spec fn pos_of(m: MicroInstr) -> u8 {
    match m {
        MicroInstr::SETHL(pos) => pos,
        _ => 0,
    }
}

impl CPU {
    /// The address selected by a load micro-op.
    fn ld_addr(preset: u16, is_offset: bool, b8: u8, b16: u8) -> (r: u16)
        ensures
            r == CpuView::spec_ld_addr(preset, is_offset, b8, b16),
    {
        if preset == 0 {
            ((b16 as u16) << 8) | (b8 as u16)
        } else if is_offset {
            preset | (b8 as u16)
        } else {
            preset
        }
    }

    #[verifier::rlimit(100)]
    fn micro_load1(&mut self, ts: &mut TickState, m: MicroInstr)
        requires
            old(self)@.wf(),
            matches!(m, MicroInstr::Read(_) | MicroInstr::LDRN(_) | MicroInstr::LDRR(_, _)
                | MicroInstr::LDAHLINC | MicroInstr::LDAHLDEC),
        ensures
            (final(self)@, final(ts)@) == old(self)@.spec_micro_load(old(ts)@, m),
            final(self)@.wf(),
            final(self)@.tick == old(self)@.tick,
            final(ts)@.step == old(ts)@.step,
            final(ts)@.instr == old(ts)@.instr,
    {
        proof {
            reveal(CpuView::spec_micro_load);
        }
        let hl = self.registers.get_hl();
        match m {
            MicroInstr::Read(byte) => {
                let b = self.bus.read(self.pc);
                match byte {
                    Byte::LSB => ts.b8 = b,
                    Byte::MSB => ts.b16 = b,
                }
                self.pc = self.pc.wrapping_add(1);
            },
            MicroInstr::LDRN(reg) => {
                let b = self.bus.read(self.pc);
                self.registers.set(reg, b);
                self.pc = self.pc.wrapping_add(1);
            },
            MicroInstr::LDRR(r1, r2) => {
                let v = self.registers.get(r2);
                self.registers.set(r1, v);
            },
            MicroInstr::LDAHLINC => {
                let b = self.bus.read(hl);
                self.registers.set(Register::A, b);
                self.registers.set_hl(hl.wrapping_add(1));
            },
            _ => {
                let b = self.bus.read(hl);
                self.registers.set(Register::A, b);
                self.registers.set_hl(hl.wrapping_sub(1));
            },
        }
        proof {
            assert((self@, ts@) == old(self)@.spec_micro_load(old(ts)@, m));
        }
    }

    #[verifier::rlimit(100)]
    fn micro_load2(&mut self, ts: &mut TickState, m: MicroInstr)
        requires
            old(self)@.wf(),
            matches!(m, MicroInstr::LDHLINCA | MicroInstr::LDHLDECA | MicroInstr::LDNNR(_, _, _)
                | MicroInstr::LDRNN(_, _, _) | MicroInstr::LDHLN),
        ensures
            (final(self)@, final(ts)@) == old(self)@.spec_micro_load(old(ts)@, m),
            final(self)@.wf(),
            final(self)@.tick == old(self)@.tick,
            final(ts)@.step == old(ts)@.step,
            final(ts)@.instr == old(ts)@.instr,
    {
        proof {
            reveal(CpuView::spec_micro_load);
        }
        let hl = self.registers.get_hl();
        match m {
            MicroInstr::LDHLINCA => {
                self.bus.write(hl, self.registers.a);
                self.registers.set_hl(hl.wrapping_add(1));
            },
            MicroInstr::LDHLDECA => {
                self.bus.write(hl, self.registers.a);
                self.registers.set_hl(hl.wrapping_sub(1));
            },
            MicroInstr::LDNNR(preset, reg, is_offset) => {
                let addr = Self::ld_addr(preset, is_offset, ts.b8, ts.b16);
                let v = self.registers.get(reg);
                self.bus.write(addr, v);
            },
            MicroInstr::LDRNN(reg, preset, is_offset) => {
                let addr = Self::ld_addr(preset, is_offset, ts.b8, ts.b16);
                let b = self.bus.read(addr);
                self.registers.set(reg, b);
            },
            _ => {
                self.bus.write(hl, ts.b8);
            },
        }
        proof {
            assert((self@, ts@) == old(self)@.spec_micro_load(old(ts)@, m));
        }
    }

    #[verifier::rlimit(100)]
    fn micro_load3(&mut self, ts: &mut TickState, m: MicroInstr)
        requires
            old(self)@.wf(),
            matches!(m, MicroInstr::LDSPNN | MicroInstr::LDNNSP(_) | MicroInstr::LDSPHL
                | MicroInstr::LDHLSPN),
        ensures
            (final(self)@, final(ts)@) == old(self)@.spec_micro_load(old(ts)@, m),
            final(self)@.wf(),
            final(self)@.tick == old(self)@.tick,
            final(ts)@.step == old(ts)@.step,
            final(ts)@.instr == old(ts)@.instr,
    {
        proof {
            reveal(CpuView::spec_micro_load);
        }
        match m {
            MicroInstr::LDSPNN => {
                self.sp = ((ts.b16 as u16) << 8) | (ts.b8 as u16);
            },
            MicroInstr::LDNNSP(byte) => {
                let addr = ((ts.b16 as u16) << 8) | (ts.b8 as u16);
                match byte {
                    Byte::LSB => self.bus.write(addr, (self.sp & 0xFF) as u8),
                    Byte::MSB => self.bus.write(addr.wrapping_add(1), (self.sp >> 8) as u8),
                }
            },
            MicroInstr::LDSPHL => {
                self.sp = self.registers.get_hl();
            },
            _ => {
                self.registers.set_flag(Flag::Z, false);
                self.registers.set_flag(Flag::N, false);
                self.registers.set_flag(Flag::H, (self.sp % 16) + ((ts.b8 & 0x0F) as u16) > 0x0F);
                self.registers.set_flag(Flag::C, (self.sp % 256) + (ts.b8 as u16) > 0xFF);
                let v = add_signed8(self.sp, ts.b8);
                self.registers.set_hl(v);
            },
        }
        proof {
            assert((self@, ts@) == old(self)@.spec_micro_load(old(ts)@, m));
        }
    }

    fn micro_load(&mut self, ts: &mut TickState, m: MicroInstr)
        requires
            old(self)@.wf(),
            matches!(m, MicroInstr::Read(_) | MicroInstr::LDRN(_) | MicroInstr::LDRR(_, _)
                | MicroInstr::LDAHLINC | MicroInstr::LDAHLDEC | MicroInstr::LDHLINCA
                | MicroInstr::LDHLDECA | MicroInstr::LDNNR(_, _, _) | MicroInstr::LDRNN(_, _, _)
                | MicroInstr::LDHLN | MicroInstr::LDSPNN | MicroInstr::LDNNSP(_)
                | MicroInstr::LDSPHL | MicroInstr::LDHLSPN),
        ensures
            (final(self)@, final(ts)@) == old(self)@.spec_micro_load(old(ts)@, m),
            final(self)@.wf(),
            final(self)@.tick == old(self)@.tick,
            final(ts)@.step == old(ts)@.step,
            final(ts)@.instr == old(ts)@.instr,
    {
        match m {
            MicroInstr::Read(_) | MicroInstr::LDRN(_) | MicroInstr::LDRR(_, _)
                | MicroInstr::LDAHLINC | MicroInstr::LDAHLDEC => self.micro_load1(ts, m),
            MicroInstr::LDHLINCA | MicroInstr::LDHLDECA | MicroInstr::LDNNR(_, _, _)
                | MicroInstr::LDRNN(_, _, _) | MicroInstr::LDHLN => self.micro_load2(ts, m),
            _ => self.micro_load3(ts, m),
        }
    }

    #[verifier::rlimit(100)]
    fn micro_incdec(&mut self, m: MicroInstr)
        requires
            old(self)@.wf(),
        ensures
            final(self)@ == old(self)@.spec_micro_incdec(m),
            final(self)@.wf(),
            final(self)@.tick == old(self)@.tick,
    {
        proof {
            reveal(CpuView::spec_micro_incdec);
        }
        let hl = self.registers.get_hl();
        match m {
            MicroInstr::INC(reg) => self.registers.alu_inc(reg),
            MicroInstr::DEC(reg) => self.registers.alu_dec(reg),
            MicroInstr::INCHLADDR => {
                let b = self.bus.read(hl);
                self.registers.set_flag(Flag::Z, b.wrapping_add(1) == 0);
                self.registers.set_flag(Flag::N, false);
                self.registers.set_flag(Flag::H, ((b & 0xF).wrapping_add(1)) & 0x10 == 0x10);
                self.bus.write(hl, b.wrapping_add(1));
            },
            MicroInstr::DECNN(addr) => {
                let b = self.bus.read(addr);
                self.registers.set_flag(Flag::Z, b.wrapping_sub(1) == 0);
                self.registers.set_flag(Flag::N, true);
                self.registers.set_flag(Flag::H, ((b & 0xF).wrapping_sub(1)) & 0x10 == 0x10);
                self.bus.write(addr, b.wrapping_sub(1));
            },
            MicroInstr::INCHL => self.registers.set_hl(hl.wrapping_add(1)),
            MicroInstr::DECHL => self.registers.set_hl(hl.wrapping_sub(1)),
            MicroInstr::INCBC => {
                let v = self.registers.get_bc();
                self.registers.set_bc(v.wrapping_add(1));
            },
            MicroInstr::DECBC => {
                let v = self.registers.get_bc();
                self.registers.set_bc(v.wrapping_sub(1));
            },
            MicroInstr::INCDE => {
                let v = self.registers.get_de();
                self.registers.set_de(v.wrapping_add(1));
            },
            MicroInstr::DECDE => {
                let v = self.registers.get_de();
                self.registers.set_de(v.wrapping_sub(1));
            },
            MicroInstr::INCSP => self.sp = self.sp.wrapping_add(1),
            _ => self.sp = self.sp.wrapping_sub(1),
        }
        proof {
            assert(self@ == old(self)@.spec_micro_incdec(m));
        }
    }

    #[verifier::rlimit(100)]
    fn micro_flow(&mut self, ts: &mut TickState, m: MicroInstr)
        requires
            old(self)@.wf(),
        ensures
            (final(self)@, final(ts)@) == old(self)@.spec_micro_flow(old(ts)@, m),
            final(self)@.wf(),
            final(self)@.tick == old(self)@.tick,
            final(ts)@.step == old(ts)@.step,
            final(ts)@.instr == old(ts)@.instr,
    {
        proof {
            reveal(CpuView::spec_micro_flow);
        }
        let imm16: u16 = ((ts.b16 as u16) << 8) | (ts.b8 as u16);
        match m {
            MicroInstr::JP => self.pc = imm16,
            MicroInstr::JPHL => self.pc = self.registers.get_hl(),
            MicroInstr::JR => self.pc = add_signed8(self.pc, ts.b8),
            MicroInstr::PUSH(val) => {
                self.sp = self.sp.wrapping_sub(1);
                self.bus.write(self.sp, val);
            },
            MicroInstr::POPPC(byte) => {
                let b = self.bus.read(self.sp);
                match byte {
                    Byte::LSB => ts.b8 = b,
                    Byte::MSB => ts.b16 = b,
                }
                self.sp = self.sp.wrapping_add(1);
            },
            MicroInstr::POPR(reg) => {
                let b = self.bus.read(self.sp);
                let v = if matches!(reg, Register::F) {
                    b & 0xF0
                } else {
                    b
                };
                self.registers.set(reg, v);
                self.sp = self.sp.wrapping_add(1);
            },
            MicroInstr::RST(addr) => self.pc = addr,
            MicroInstr::RETI => {
                self.pc = imm16;
                self.should_enable_ime = 2;
            },
            _ => {
                self.registers.set_flag(Flag::Z, false);
                self.registers.set_flag(Flag::N, false);
                self.registers.set_flag(Flag::H, (self.sp % 16) + ((ts.b8 & 0x0F) as u16) > 0x0F);
                self.registers.set_flag(Flag::C, (self.sp % 256) + (ts.b8 as u16) > 0xFF);
                self.sp = add_signed8(self.sp, ts.b8);
            },
        }
        proof {
            assert(matches!(m, MicroInstr::POPR(_)) ==> self@ == old(self)@.spec_micro_flow(
                old(ts)@,
                m,
            ).0);
            assert((self@, ts@) == old(self)@.spec_micro_flow(old(ts)@, m));
        }
    }

    #[verifier::rlimit(100)]
    fn micro_alu(&mut self, b8: u8, m: MicroInstr)
        requires
            old(self)@.wf(),
        ensures
            final(self)@ == old(self)@.spec_micro_alu(b8, m),
            final(self)@.wf(),
            final(self)@.tick == old(self)@.tick,
    {
        proof {
            reveal(CpuView::spec_micro_alu);
        }
        let hl = self.registers.get_hl();
        let mem = self.bus.read(hl);
        match m {
            MicroInstr::ADD(reg) => {
                let v = self.registers.get(reg);
                self.registers.alu_add(v);
            },
            MicroInstr::ADDN => self.registers.alu_add(b8),
            MicroInstr::ADDHL => self.registers.alu_add(mem),
            MicroInstr::ADC(reg) => {
                let v = self.registers.get(reg);
                self.registers.alu_adc(v);
            },
            MicroInstr::ADCN => self.registers.alu_adc(b8),
            MicroInstr::ADCHL => self.registers.alu_adc(mem),
            MicroInstr::SUB(reg) => {
                let v = self.registers.get(reg);
                self.registers.alu_sub(v);
            },
            MicroInstr::SUBN => self.registers.alu_sub(b8),
            MicroInstr::SUBHL => self.registers.alu_sub(mem),
            MicroInstr::SBC(reg) => {
                let v = self.registers.get(reg);
                self.registers.alu_sbc(v);
            },
            MicroInstr::SBCN => self.registers.alu_sbc(b8),
            MicroInstr::SBCHL => self.registers.alu_sbc(mem),
            MicroInstr::AND(reg) => {
                let v = self.registers.get(reg);
                self.registers.alu_and(v);
            },
            MicroInstr::ANDN => self.registers.alu_and(b8),
            MicroInstr::ANDHL => self.registers.alu_and(mem),
            MicroInstr::OR(reg) => {
                let v = self.registers.get(reg);
                self.registers.alu_or(v);
            },
            MicroInstr::ORN => self.registers.alu_or(b8),
            MicroInstr::ORHL => self.registers.alu_or(mem),
            MicroInstr::XOR(reg) => {
                let v = self.registers.get(reg);
                self.registers.alu_xor(v);
            },
            MicroInstr::XORN => self.registers.alu_xor(b8),
            MicroInstr::XORHL => self.registers.alu_xor(mem),
            MicroInstr::CP(reg) => {
                let v = self.registers.get(reg);
                self.registers.alu_cp(v);
            },
            MicroInstr::CPN => self.registers.alu_cp(b8),
            MicroInstr::CPHL => self.registers.alu_cp(mem),
            MicroInstr::ADDHLNN(v) => self.registers.alu_add_hl(v),
            _ => self.registers.alu_daa(),
        }
        proof {
            assert(self@ == old(self)@.spec_micro_alu(b8, m));
        }
    }

    #[verifier::rlimit(100)]
    fn micro_rot_reg(&mut self, m: MicroInstr)
        requires
            old(self)@.wf(),
            matches!(m, MicroInstr::SRLR(_) | MicroInstr::RRR(_) | MicroInstr::RRA
                | MicroInstr::RRCR(_) | MicroInstr::RRCA | MicroInstr::RLCR(_)
                | MicroInstr::RLCA | MicroInstr::RLR(_) | MicroInstr::RLA | MicroInstr::SLAR(_)
                | MicroInstr::SRAR(_) | MicroInstr::SWAP(_) | MicroInstr::BIT(_, _)
                | MicroInstr::RES(_, _) | MicroInstr::SET(_, _)),
        ensures
            final(self)@ == old(self)@.spec_micro_rot(m),
            final(self)@.wf(),
            final(self)@.tick == old(self)@.tick,
    {
        proof {
            reveal(CpuView::spec_micro_rot);
        }
        let carry = self.registers.get_flag(Flag::C) == 1;
        match m {
            MicroInstr::SRLR(reg) => {
                let b = self.registers.get(reg);
                let res = b >> 1u8;
                self.registers.set_flag(Flag::C, b & 0x1 == 1);
                self.registers.set(reg, res);
                self.registers.set_flag(Flag::Z, res == 0);
                self.registers.set_flag(Flag::N, false);
                self.registers.set_flag(Flag::H, false);
            },
            MicroInstr::RRR(reg) => {
                let b = self.registers.get(reg);
                let res = rr_byte(b, carry);
                self.registers.set(reg, res);
                self.registers.rot_flags(res == 0, b & 0x1 == 1);
            },
            MicroInstr::RRA => {
                let b = self.registers.a;
                let res = rr_byte(b, carry);
                self.registers.set(Register::A, res);
                self.registers.rot_flags(false, b & 0x1 == 1);
            },
            MicroInstr::RRCR(reg) => {
                let b = self.registers.get(reg);
                let res = rrc_byte(b);
                self.registers.set(reg, res);
                self.registers.rot_flags(res == 0, b & 0x1 == 1);
            },
            MicroInstr::RRCA => {
                let b = self.registers.a;
                let res = rrc_byte(b);
                self.registers.set(Register::A, res);
                self.registers.rot_flags(false, b & 0x1 == 1);
            },
            MicroInstr::RLCR(reg) => {
                let b = self.registers.get(reg);
                let res = rlc_byte(b);
                self.registers.set(reg, res);
                self.registers.rot_flags(res == 0, (b >> 7) & 0x1 == 1);
            },
            MicroInstr::RLCA => {
                let b = self.registers.a;
                let res = rlc_byte(b);
                self.registers.set(Register::A, res);
                self.registers.rot_flags(false, (b >> 7) & 0x1 == 1);
            },
            MicroInstr::RLR(reg) => {
                let b = self.registers.get(reg);
                let res = rl_byte(b, carry);
                self.registers.set(reg, res);
                self.registers.rot_flags(res == 0, (b >> 7) & 0x1 == 1);
            },
            MicroInstr::RLA => {
                let b = self.registers.a;
                let res = rl_byte(b, carry);
                self.registers.set(Register::A, res);
                self.registers.rot_flags(false, (b >> 7) & 0x1 == 1);
            },
            MicroInstr::SLAR(reg) => {
                let b = self.registers.get(reg);
                let res = b << 1u8;
                self.registers.set(reg, res);
                self.registers.rot_flags(res == 0, (b >> 7) & 0x1 == 1);
            },
            MicroInstr::SRAR(reg) => {
                let b = self.registers.get(reg);
                let res = sra_byte(b);
                self.registers.set(reg, res);
                self.registers.rot_flags(res == 0, b & 0x1 == 1);
            },
            MicroInstr::SWAP(reg) => {
                let b = self.registers.get(reg);
                let res = swap_byte(b);
                self.registers.set(reg, res);
                self.registers.rot_flags(res == 0, false);
            },
            MicroInstr::BIT(pos, reg) => {
                let b = self.registers.get(reg);
                self.registers.set_flag(Flag::Z, (b >> (pos % 8)) & 0x1 == 0);
                self.registers.set_flag(Flag::N, false);
                self.registers.set_flag(Flag::H, true);
            },
            MicroInstr::RES(pos, reg) => {
                let b = self.registers.get(reg);
                self.registers.set(reg, b & !(1u8 << (pos % 8)));
            },
            MicroInstr::SET(pos, reg) => {
                let b = self.registers.get(reg);
                self.registers.set(reg, b | (1u8 << (pos % 8)));
            },
            _ => {},
        }
        proof {
            assert(self@ == old(self)@.spec_micro_rot(m));
        }
    }

    #[verifier::rlimit(100)]
    fn micro_rot_mem(&mut self, m: MicroInstr)
        requires
            old(self)@.wf(),
            matches!(m, MicroInstr::SRLHL | MicroInstr::RRHL | MicroInstr::RRCHL
                | MicroInstr::RLCHL | MicroInstr::RLHL | MicroInstr::SLAHL | MicroInstr::SRAHL
                | MicroInstr::SWAPHL | MicroInstr::BITHL(_) | MicroInstr::RESHL(_)
                | MicroInstr::SETHL(_)),
        ensures
            final(self)@ == old(self)@.spec_micro_rot(m),
            final(self)@.wf(),
            final(self)@.tick == old(self)@.tick,
    {
        proof {
            reveal(CpuView::spec_micro_rot);
        }
        let hl = self.registers.get_hl();
        let mem = self.bus.read(hl);
        let carry = self.registers.get_flag(Flag::C) == 1;
        match m {
            MicroInstr::SRLHL => {
                self.bus.write(hl, mem >> 1u8);
                let b2 = self.bus.read(hl);
                self.registers.set_flag(Flag::C, mem & 0x1 == 1);
                self.registers.set_flag(Flag::Z, b2 == 0);
                self.registers.set_flag(Flag::N, false);
                self.registers.set_flag(Flag::H, false);
            },
            MicroInstr::RRHL => {
                self.bus.write(hl, mem >> 1u8);
                let b1 = self.bus.read(hl);
                self.bus.write(
                    hl,
                    if carry {
                        b1 | 0x80
                    } else {
                        b1 & 0x7F
                    },
                );
                let b2 = self.bus.read(hl);
                self.registers.rot_flags(b2 == 0, mem & 0x1 == 1);
            },
            MicroInstr::RRCHL => {
                self.bus.write(hl, rrc_byte(mem));
                let b2 = self.bus.read(hl);
                self.registers.rot_flags(b2 == 0, mem & 0x1 == 1);
            },
            MicroInstr::RLCHL => {
                self.bus.write(hl, rlc_byte(mem));
                let b2 = self.bus.read(hl);
                self.registers.rot_flags(b2 == 0, (mem >> 7) & 0x1 == 1);
            },
            MicroInstr::RLHL => {
                self.bus.write(hl, rl_byte(mem, carry));
                let b2 = self.bus.read(hl);
                self.registers.rot_flags(b2 == 0, (mem >> 7) & 0x1 == 1);
            },
            MicroInstr::SLAHL => {
                self.bus.write(hl, mem << 1u8);
                let b2 = self.bus.read(hl);
                self.registers.rot_flags(b2 == 0, (mem >> 7) & 0x1 == 1);
            },
            MicroInstr::SRAHL => {
                self.bus.write(hl, sra_byte(mem));
                let b2 = self.bus.read(hl);
                self.registers.rot_flags(b2 == 0, mem & 0x1 == 1);
            },
            MicroInstr::SWAPHL => {
                self.bus.write(hl, swap_byte(mem));
                let b2 = self.bus.read(hl);
                self.registers.rot_flags(b2 == 0, false);
            },
            MicroInstr::BITHL(pos) => {
                self.registers.set_flag(Flag::Z, (mem >> (pos % 8)) & 0x1 == 0);
                self.registers.set_flag(Flag::N, false);
                self.registers.set_flag(Flag::H, true);
            },
            MicroInstr::RESHL(pos) => {
                self.bus.write(hl, mem & !(1u8 << (pos % 8)));
            },
            _ => {
                let pos = match m {
                    MicroInstr::SETHL(p) => p,
                    _ => 0,
                };
                self.bus.write(hl, mem | (1u8 << (pos % 8)));
            },
        }
        proof {
            assert(self@ == old(self)@.spec_micro_rot(m));
        }
    }

    #[verifier::rlimit(100)]
    fn micro_misc(&mut self, m: MicroInstr)
        requires
            old(self)@.wf(),
        ensures
            final(self)@ == old(self)@.spec_micro_misc(m),
            final(self)@.wf(),
            final(self)@.tick == old(self)@.tick,
    {
        proof {
            reveal(CpuView::spec_micro_misc);
        }
        match m {
            MicroInstr::CPL => {
                self.registers.set_flag(Flag::N, true);
                self.registers.set_flag(Flag::H, true);
                self.registers.a = !self.registers.a;
            },
            MicroInstr::SCF => {
                self.registers.set_flag(Flag::N, false);
                self.registers.set_flag(Flag::H, false);
                self.registers.set_flag(Flag::C, true);
            },
            MicroInstr::CCF => {
                let c = self.registers.get_flag(Flag::C);
                self.registers.set_flag(Flag::N, false);
                self.registers.set_flag(Flag::H, false);
                self.registers.set_flag(Flag::C, c == 0);
            },
            MicroInstr::NOP => {},
            MicroInstr::HALT => {
                if self.is_halted {
                } else if !self.ime && (self.bus.ie_reg & self.bus.if_reg & 0x1F) != 0 {
                    self.halt_bug = true;
                } else {
                    self.is_halted = true;
                }
            },
            MicroInstr::STOP => {
                self.pc = self.pc.wrapping_add(1);
            },
            MicroInstr::DI => {
                self.ime = false;
                self.should_enable_ime = 0;
            },
            _ => {
                self.should_enable_ime = 2;
            },
        }
        proof {
            assert(self@ == old(self)@.spec_micro_misc(m));
        }
    }
}

impl CPU {
    /// Step the delayed-EI latch at instruction retirement.
    fn retire(&mut self)
        ensures
            final(self)@ == old(self)@.spec_retire(),
    {
        if self.should_enable_ime > 0 {
            self.should_enable_ime = self.should_enable_ime - 1;
            if self.should_enable_ime == 0 {
                self.ime = true;
            }
        }
    }

    /// Fetch and decode the opcode at PC; see `CpuView::spec_fetch`.
    fn fetch_instr(&mut self)
        requires
            old(self)@.wf(),
            old(self)@.tick is None,
            !old(self)@.fault,
        ensures
            final(self)@ == old(self)@.spec_fetch(),
            final(self)@.wf(),
            !final(self)@.fault ==> final(self)@.tick is Some,
            final(self)@.fault ==> final(self)@.tick is None,
    {
        proof {
            reveal(CpuView::spec_fetch);
        }
        let opcode = self.bus.read(self.pc);
        if self.halt_bug {
            self.halt_bug = false;
        } else {
            self.pc = self.pc.wrapping_add(1);
        }
        match decode(opcode, &self.registers, self.pc, self.sp) {
            None => {
                self.fault = true;
            },
            Some(q) => {
                self.tick_state = Some(
                    TickState { is_prefix: opcode == 0xCB, instr: q, step: 0, b8: 0, b16: 0 },
                );
            },
        }
    }

    /// Fetch the second opcode byte of a CB-prefixed instruction and
    /// replace the queue with its decoded sequence.
    fn fetch_prefix_instr(&mut self)
        requires
            old(self)@.wf(),
        ensures
            final(self)@ == (CpuView {
                pc: old(self)@.pc.wrapping_add(1),
                tick: Some(
                    TickView {
                        is_prefix: false,
                        instr: spec_decode_prefix(old(self)@.bus.spec_read(old(self)@.pc)),
                        step: 0,
                        b8: 0,
                        b16: 0,
                    },
                ),
                ..old(self)@
            }),
            final(self)@.wf(),
    {
        let opcode = self.bus.read(self.pc);
        self.pc = self.pc.wrapping_add(1);
        let q = decode_prefix(opcode);
        self.tick_state = Some(TickState { is_prefix: false, instr: q, step: 0, b8: 0, b16: 0 });
    }

    /// The step/stall/retire logic after a micro-op; see
    /// `CpuView::spec_post`.
    fn finish_micro(&mut self, ts: TickState)
        requires
            old(self)@.wf(),
            old(self)@.tick is None,
            ts@.step < ts@.instr.len(),
        ensures
            final(self)@ == old(self)@.spec_post(ts@),
            final(self)@.wf(),
    {
        proof {
            reveal(CpuView::spec_post);
        }
        let mut ts = ts;
        let len = ts.instr.len();
        if !self.is_halted {
            ts.step = ts.step + 1;
        } else if (self.bus.ie_reg & self.bus.if_reg & 0x1F) != 0 {
            self.is_halted = false;
            ts.step = ts.step + 1;
        }
        if ts.step >= len {
            self.retire();
        } else {
            self.tick_state = Some(ts);
        }
    }

    /// Execute one micro-op of the taken queue; see
    /// `CpuView::spec_exec_micro_step`.
    #[verifier::rlimit(100)]
    fn exec_micro_step(&mut self, ts: TickState)
        requires
            old(self)@.wf(),
            old(self)@.tick is None,
        ensures
            final(self)@ == old(self)@.spec_exec_micro_step(ts@),
            final(self)@.wf(),
    {
        proof {
            reveal(CpuView::spec_exec_micro_step);
        }
        let mut ts = ts;
        if ts.step >= ts.instr.len() {
            self.retire();
            return ;
        }
        let m = ts.instr[ts.step];
        match m {
            MicroInstr::Cond(flag, expected) => {
                let want: u8 = if expected {
                    1
                } else {
                    0
                };
                if self.registers.get_flag(flag) != want {
                    return ;
                }
            },
            MicroInstr::Read(_) | MicroInstr::LDRN(_) | MicroInstr::LDRR(_, _)
                | MicroInstr::LDAHLINC | MicroInstr::LDAHLDEC | MicroInstr::LDHLINCA
                | MicroInstr::LDHLDECA | MicroInstr::LDNNR(_, _, _) | MicroInstr::LDRNN(
                _,
                _,
                _,
            ) | MicroInstr::LDHLN | MicroInstr::LDSPNN | MicroInstr::LDNNSP(_)
                | MicroInstr::LDSPHL | MicroInstr::LDHLSPN => self.micro_load(&mut ts, m),
            MicroInstr::INC(_) | MicroInstr::DEC(_) | MicroInstr::INCHLADDR
                | MicroInstr::DECNN(_) | MicroInstr::INCHL | MicroInstr::DECHL
                | MicroInstr::INCBC | MicroInstr::DECBC | MicroInstr::INCDE
                | MicroInstr::DECDE | MicroInstr::INCSP | MicroInstr::DECSP => self.micro_incdec(
                m,
            ),
            MicroInstr::JP | MicroInstr::JPHL | MicroInstr::JR | MicroInstr::PUSH(_)
                | MicroInstr::POPPC(_) | MicroInstr::POPR(_) | MicroInstr::RST(_)
                | MicroInstr::RETI | MicroInstr::ADDSPN => self.micro_flow(&mut ts, m),
            MicroInstr::ADD(_) | MicroInstr::ADDN | MicroInstr::ADDHL | MicroInstr::ADC(_)
                | MicroInstr::ADCN | MicroInstr::ADCHL | MicroInstr::SUB(_) | MicroInstr::SUBN
                | MicroInstr::SUBHL | MicroInstr::SBC(_) | MicroInstr::SBCN
                | MicroInstr::SBCHL | MicroInstr::AND(_) | MicroInstr::ANDN
                | MicroInstr::ANDHL | MicroInstr::OR(_) | MicroInstr::ORN | MicroInstr::ORHL
                | MicroInstr::XOR(_) | MicroInstr::XORN | MicroInstr::XORHL | MicroInstr::CP(
                _,
            ) | MicroInstr::CPN | MicroInstr::CPHL | MicroInstr::ADDHLNN(_)
                | MicroInstr::DAA => {
                let b8 = ts.b8;
                self.micro_alu(b8, m);
            },
            MicroInstr::CPL | MicroInstr::SCF | MicroInstr::CCF | MicroInstr::NOP
                | MicroInstr::HALT | MicroInstr::STOP | MicroInstr::DI | MicroInstr::EI => self
                .micro_misc(m),
            MicroInstr::SRLR(_) | MicroInstr::RRR(_) | MicroInstr::RRA | MicroInstr::RRCR(_)
                | MicroInstr::RRCA | MicroInstr::RLCR(_) | MicroInstr::RLCA | MicroInstr::RLR(
                _,
            ) | MicroInstr::RLA | MicroInstr::SLAR(_) | MicroInstr::SRAR(_) | MicroInstr::SWAP(
                _,
            ) | MicroInstr::BIT(_, _) | MicroInstr::RES(_, _) | MicroInstr::SET(_, _) => self
                .micro_rot_reg(m),
            _ => self.micro_rot_mem(m),
        }
        self.finish_micro(ts);
    }

    /// One executor machine cycle; see `CpuView::spec_execute`.
    fn execute(&mut self)
        requires
            old(self)@.wf(),
        ensures
            final(self)@ == old(self)@.spec_execute(),
            final(self)@.wf(),
    {
        proof {
            reveal(CpuView::spec_execute);
        }
        if self.fault {
            return ;
        }
        if self.tick_state.is_none() {
            self.fetch_instr();
            if self.fault {
                return ;
            }
        }
        let is_prefix = match &self.tick_state {
            Some(t) => t.is_prefix,
            None => false,
        };
        if is_prefix {
            self.fetch_prefix_instr();
            return ;
        }
        let ts_opt = self.tick_state.take();
        let ts = match ts_opt {
            Some(t) => t,
            None => {
                proof {
                    assert(false);
                }
                return ;
            },
        };
        self.exec_micro_step(ts);
    }

    /// The interrupt vector of one source.
    fn vector_of(i: Interrupt) -> (r: u16)
        ensures
            r == spec_vector(i),
    {
        match i {
            Interrupt::VBLANK => 0x40,
            Interrupt::STAT => 0x48,
            Interrupt::TIMER => 0x50,
            Interrupt::SERIAL => 0x58,
            Interrupt::JOYPAD => 0x60,
        }
    }

    /// One step of the five-cycle interrupt dispatch; see
    /// `CpuView::spec_execute_interrupt`.
    fn execute_interrupt(&mut self)
        requires
            old(self)@.wf(),
        ensures
            final(self)@ == old(self)@.spec_execute_interrupt(),
            final(self)@.wf(),
    {
        proof {
            reveal(CpuView::spec_execute_interrupt);
        }
        match self.interrupt_tick_state {
            None => {},
            Some(st) => {
                if st.step < 2 {
                    self.interrupt_tick_state = Some(
                        InterruptTickState { step: st.step + 1, ..st },
                    );
                } else if st.step == 2 {
                    self.sp = self.sp.wrapping_sub(1);
                    self.bus.write(self.sp, (self.pc >> 8) as u8);
                    self.interrupt_tick_state = Some(InterruptTickState { step: 3, ..st });
                } else if st.step == 3 {
                    self.sp = self.sp.wrapping_sub(1);
                    self.bus.write(self.sp, (self.pc & 0xFF) as u8);
                    self.interrupt_tick_state = Some(InterruptTickState { step: 4, ..st });
                } else {
                    self.pc = Self::vector_of(st.interrupt);
                    self.interrupt_tick_state = None;
                }
            },
        }
    }

    /// The between-instruction dispatch check; see
    /// `CpuView::spec_check_interrupts`.
    fn check_interrupts(&mut self)
        requires
            old(self)@.wf(),
        ensures
            final(self)@ == old(self)@.spec_check_interrupts(),
            final(self)@.wf(),
    {
        proof {
            reveal(CpuView::spec_check_interrupts);
        }
        let pending = self.bus.ie_reg & self.bus.if_reg & 0x1F;
        if self.ime && self.tick_state.is_none() && pending != 0 {
            let i = if pending & 0x01 != 0 {
                Interrupt::VBLANK
            } else if pending & 0x02 != 0 {
                Interrupt::STAT
            } else if pending & 0x04 != 0 {
                Interrupt::TIMER
            } else if pending & 0x08 != 0 {
                Interrupt::SERIAL
            } else {
                Interrupt::JOYPAD
            };
            let mask: u8 = match i {
                Interrupt::VBLANK => 0xFE,
                Interrupt::STAT => 0xFD,
                Interrupt::TIMER => 0xFB,
                Interrupt::SERIAL => 0xF7,
                Interrupt::JOYPAD => 0xEF,
            };
            let ghost f0: u8 = self.bus.if_reg;
            self.bus.if_reg = self.bus.if_reg & mask;
            self.ime = false;
            if self.interrupt_tick_state.is_none() {
                self.interrupt_tick_state = Some(InterruptTickState { interrupt: i, step: 0 });
            }
            proof {
                assert(f0 < 0x20 ==> f0 & mask < 0x20) by (bit_vector);
            }
        }
    }

    /// One full machine cycle: one executor or dispatch step, the bus
    /// components, then the interrupt-edge sampling and dispatch check.
    pub fn step(&mut self)
        requires
            old(self)@.wf(),
        ensures
            final(self)@ == old(self)@.spec_cycle(),
            final(self)@.wf(),
    {
        proof {
            reveal(CpuView::spec_cycle);
        }
        if self.interrupt_tick_state.is_some() {
            self.execute_interrupt();
        } else {
            self.execute();
        }
        self.bus.update_components();
        self.bus.update_requested_interrupts();
        self.check_interrupts();
    }

    /// Run machine cycles until the PPU latches a finished frame, a
    /// reserved opcode freezes the core, or the cycle budget runs out
    /// (the LCD may be disabled, in which case no frame ever latches).
    pub fn run_frame_loop(&mut self) -> (n: u32)
        requires
            old(self)@.wf(),
        ensures
            final(self)@.wf(),
            n <= 1000000,
            final(self)@ == old(self)@.spec_run(n as nat),
            forall|k: nat|
                k < n ==> !old(self)@.spec_run(k).bus.ppu.rendered_frame && !old(self)@.spec_run(
                    k,
                ).fault,
            final(self)@.bus.ppu.rendered_frame || final(self)@.fault || n == 1000000,
    {
        let mut n: u32 = 0;
        while n < 1000000 && !self.bus.ppu.rendered_frame && !self.fault
            invariant
                self@.wf(),
                n <= 1000000,
                self@ == old(self)@.spec_run(n as nat),
                forall|k: nat|
                    k < n ==> !old(self)@.spec_run(k).bus.ppu.rendered_frame && !old(
                        self,
                    )@.spec_run(k).fault,
            decreases 1000000 - n,
        {
            self.step();
            n = n + 1;
        }
        n
    }

    /// Run machine cycles until the PPU latches a finished frame (or the
    /// cycle budget runs out with the LCD disabled), consume the latch,
    /// and hand back the 160x144 frame. A core frozen by a reserved
    /// opcode reports the fault instead. The witnessed cycle count is the
    /// first at which a frame latched or the core froze.
    #[verifier::rlimit(100)]
    pub fn next_frame(&mut self, keypress: i8) -> (r: Result<Vec<u8>, RunError>)
        requires
            old(self)@.wf(),
        ensures
            final(self)@.wf(),
            final(self)@.bus.ppu.rendered_frame == false,
            ({
                let start = CpuView {
                    bus: MemView { keypress: keypress, ..old(self)@.bus },
                    ..old(self)@
                };
                &&& (match r {
                    Ok(d) => !final(self)@.fault && d@ == final(self)@.bus.ppu.lcd,
                    Err(_) => final(self)@.fault,
                })
                &&& exists|n: nat|
                    #![auto]
                    spec_frame_trace_ok(start, n) && final(self)@ == spec_frame_outcome(start, n)
            }),
    {
        self.bus.keypress = keypress;
        let ghost start: CpuView = self@;
        let n = self.run_frame_loop();
        proof {
            reveal(spec_frame_trace_ok);
            assert(spec_frame_trace_ok(start, n as nat));
        }
        let _ = self.bus.is_frame_rendered();
        proof {
            reveal(spec_frame_outcome);
            assert(self@ == spec_frame_outcome(start, n as nat));
        }
        if self.fault {
            Err(RunError::Frozen)
        } else {
            let d = self.bus.get_display();
            Ok(d)
        }
    }

    /// Set the published post-boot register values, skipping the boot
    /// ROM: AF=0x01B0, BC=0x0013, DE=0x00D8, HL=0x014D, SP=0xFFFE,
    /// PC=0x0100, with the LCD switched on.
    pub fn initialize_core(&mut self)
        requires
            old(self)@.wf(),
        ensures
            final(self)@.wf(),
            final(self)@ == (CpuView {
                regs: Registers {
                    a: 0x01,
                    f: 0xB0,
                    b: 0x00,
                    c: 0x13,
                    d: 0x00,
                    e: 0xD8,
                    h: 0x01,
                    l: 0x4D,
                },
                sp: 0xFFFE,
                pc: 0x0100,
                bus: old(self)@.bus.spec_write(0xFF40, 0x80).spec_write(0xFF44, 0x91),
                ..old(self)@
            }),
    {
        self.registers.set(Register::A, 0x01);
        self.registers.set(Register::F, 0xB0);
        self.registers.set(Register::B, 0x00);
        self.registers.set(Register::C, 0x13);
        self.registers.set(Register::D, 0x00);
        self.registers.set(Register::E, 0xD8);
        self.registers.set(Register::H, 0x01);
        self.registers.set(Register::L, 0x4D);
        self.sp = 0xFFFE;
        self.pc = 0x0100;
        self.bus.write(0xFF40, 0x80);
        self.bus.write(0xFF44, 0x91);
    }
}

/// A frozen core: a reserved opcode was fetched and the CPU halted for
/// good, as the hardware does.
#[derive(Clone, Copy, PartialEq, Eq, Structural, Debug)]
pub enum RunError {
    Frozen,
}

impl Default for CPU {
    /// The power-on core: cleared registers, PC and SP at zero, IME off,
    /// nothing in flight.
    fn default() -> (c: CPU)
        ensures
            c@.wf(),
            c@.regs == (Registers { a: 0, b: 0, c: 0, d: 0, e: 0, h: 0, l: 0, f: 0 }),
            c@.pc == 0,
            c@.sp == 0,
            c@.ime == false,
            c@.should_enable_ime == 0,
            c@.tick is None,
            c@.int_state is None,
            c@.halted == false,
            c@.halt_bug == false,
            c@.fault == false,
            c@.bus == crate::memory::spec_power_on_mem(),
    {
        CPU {
            registers: Registers::default(),
            pc: 0,
            sp: 0,
            bus: Memory::default(),
            ime: false,
            should_enable_ime: 0,
            tick_state: None,
            interrupt_tick_state: None,
            is_halted: false,
            halt_bug: false,
            fault: false,
        }
    }
}

} // verus!
