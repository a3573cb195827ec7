//! The save-state container: a sequence of labeled blocks (a four-byte
//! ASCII tag, a 32-bit little-endian length, the payload) terminated by an
//! END block, with a trailing 32-bit little-endian offset to the first
//! block and the literal bytes "BESS". The large memory regions open the
//! file; NAME carries the emulator identity, INFO the cartridge title and
//! checksum, CORE the CPU state with an I/O-region snapshot and the
//! regions' size/offset pairs, and MBC the (address, value) tuples that
//! re-drive the bank-control registers. A malformed file is refused with
//! the core left untouched.
use crate::cpu::CPU;
use crate::cpu::CpuView;
use crate::memory::MemView;
use crate::memory::Memory;
use crate::memory::append_bytes;
use crate::memory::append_u32le;
use crate::registers::Registers;
use crate::spec_u32_le;
use crate::timer::Timer;
use vstd::prelude::*;

verus! {

/// Why a save-state file was refused; the core is left untouched.
#[derive(Clone, Copy, PartialEq, Eq, Structural, Debug)]
pub enum RestoreError {
    /// The file is too short or the trailing "BESS" signature is missing.
    MissingSignature,
    /// A block header or payload runs past the file, a CORE block is too
    /// short or one of its regions overflows the file or its target, or
    /// the block chain never reaches an END block.
    BlockOverflow,
    /// A block tag this core does not know.
    UnknownBlock,
    /// An MBC payload whose length is not a multiple of three.
    MbcMisaligned,
    /// An MBC tuple naming an address outside the bank-control regions.
    MbcBadAddress,
}

/// One labeled block: tag, 32-bit little-endian payload length, payload.
pub open spec fn spec_block(tag: Seq<u8>, payload: Seq<u8>) -> Seq<u8> {
    tag + spec_u32_le(payload.len() as u32) + payload
}

/// The 32-bit little-endian value at `p`.
pub open spec fn spec_le32_at(file: Seq<u8>, p: int) -> int {
    file[p] + 0x100 * file[p + 1] + 0x10000 * file[p + 2] + 0x1000000 * file[p + 3]
}

/// Whether the four bytes at `p` are the given tag.
pub open spec fn spec_tag_at(file: Seq<u8>, p: int, a: u8, b: u8, c: u8, d: u8) -> bool {
    file[p] == a && file[p + 1] == b && file[p + 2] == c && file[p + 3] == d
}

/// The head of the CORE payload: BESS version 1.0, the model identifier,
/// the CPU state bytes (PC, F, A, C, B, E, D, L, H, SP, IME, IE, halted,
/// pad), and the 128-byte I/O-region snapshot 0xFF00-0xFF7F.
#[verifier::opaque]
pub open spec fn spec_core_head(c: CpuView) -> Seq<u8> {
    seq![
        1u8,
        0u8,
        1u8,
        0u8,
        0x47u8,
        0x44u8,
        0x20u8,
        0x20u8,
        (c.pc & 0xFF) as u8,
        (c.pc >> 8) as u8,
        c.regs.f,
        c.regs.a,
        c.regs.c,
        c.regs.b,
        c.regs.e,
        c.regs.d,
        c.regs.l,
        c.regs.h,
        (c.sp & 0xFF) as u8,
        (c.sp >> 8) as u8,
        if c.ime {
            1u8
        } else {
            0u8
        },
        c.bus.ie_reg,
        if c.halted {
            1u8
        } else {
            0u8
        },
        0u8,
    ] + Seq::new(128, |i: int| c.bus.spec_read((0xFF00 + i) as u16))
}

/// The CORE payload: the head followed by the five regions' size/offset
/// pairs.
#[verifier::opaque]
pub open spec fn spec_core_payload(c: CpuView) -> Seq<u8> {
    spec_core_head(c) + c.bus.bess_buffer_offsets + c.bus.spec_bess_offsets()
}

/// The whole save-state file produced from one core state.
#[verifier::opaque]
pub open spec fn spec_save_file(c: CpuView) -> Seq<u8> {
    let bufs = c.bus.spec_bess_buffers();
    bufs + spec_block(
        seq![0x4Eu8, 0x41u8, 0x4Du8, 0x45u8],
        seq![0x67u8, 0x62u8, 0x63u8, 0x6Fu8, 0x72u8, 0x65u8],
    ) + spec_block(seq![0x49u8, 0x4Eu8, 0x46u8, 0x4Fu8], c.bus.spec_rom_info()) + spec_block(
        seq![0x43u8, 0x4Fu8, 0x52u8, 0x45u8],
        spec_core_payload(c),
    ) + (match c.bus.spec_bess_mbc_block() {
        Some(m) => spec_block(seq![0x4Du8, 0x42u8, 0x43u8, 0x20u8], m),
        None => Seq::empty(),
    }) + spec_block(seq![0x45u8, 0x4Eu8, 0x44u8, 0x20u8], Seq::empty()) + spec_u32_le(
        bufs.len() as u32,
    ) + seq![0x42u8, 0x45u8, 0x53u8, 0x53u8]
}

/// Whether the CORE block's five region descriptors fit: each size within
/// its target region and each source range within the file. The regions
/// are work RAM, VRAM, external RAM, OAM, high RAM, in that order.
pub open spec fn spec_core_regions_ok(file: Seq<u8>, sram_len: int, body: int) -> bool {
    &&& spec_le32_at(file, body + 0x98) <= 0x2000
    &&& spec_le32_at(file, body + 0x9C) + spec_le32_at(file, body + 0x98) <= file.len()
    &&& spec_le32_at(file, body + 0xA0) <= 0x2000
    &&& spec_le32_at(file, body + 0xA4) + spec_le32_at(file, body + 0xA0) <= file.len()
    &&& spec_le32_at(file, body + 0xA8) <= sram_len
    &&& spec_le32_at(file, body + 0xAC) + spec_le32_at(file, body + 0xA8) <= file.len()
    &&& spec_le32_at(file, body + 0xB0) <= 160
    &&& spec_le32_at(file, body + 0xB4) + spec_le32_at(file, body + 0xB0) <= file.len()
    &&& spec_le32_at(file, body + 0xB8) <= 0x7F
    &&& spec_le32_at(file, body + 0xBC) + spec_le32_at(file, body + 0xB8) <= file.len()
}

/// Whether the MBC tuples `i..k` all name bank-control addresses: below
/// 0x8000 or in the external-RAM window.
pub open spec fn spec_mbc_addrs_ok(file: Seq<u8>, body: int, i: int, k: int) -> bool
    decreases k - i,
{
    if i >= k {
        true
    } else {
        let addr = file[body + 3 * i] + 0x100 * file[body + 3 * i + 1];
        &&& (addr < 0x8000 || (0xA000 <= addr && addr < 0xC000))
        &&& spec_mbc_addrs_ok(file, body, i + 1, k)
    }
}

/// The first refusal found walking the block chain at `ptr`, or nothing
/// when the chain reaches a well-formed END block.
#[verifier::opaque]
pub open spec fn spec_bess_blocks_error(
    file: Seq<u8>,
    sram_len: int,
    ptr: int,
    fuel: nat,
) -> Option<RestoreError>
    decreases fuel,
{
    if fuel == 0 {
        Some(RestoreError::BlockOverflow)
    } else if ptr < 0 || ptr + 8 > file.len() {
        Some(RestoreError::BlockOverflow)
    } else {
        let len = spec_le32_at(file, ptr + 4);
        if ptr + 8 + len > file.len() {
            Some(RestoreError::BlockOverflow)
        } else {
            let body = ptr + 8;
            let next = ptr + 8 + len;
            if spec_tag_at(file, ptr, 0x45, 0x4E, 0x44, 0x20) {
                None
            } else if spec_tag_at(file, ptr, 0x4E, 0x41, 0x4D, 0x45) || spec_tag_at(
                file,
                ptr,
                0x49,
                0x4E,
                0x46,
                0x4F,
            ) || spec_tag_at(file, ptr, 0x58, 0x4F, 0x41, 0x4D) {
                spec_bess_blocks_error(file, sram_len, next, (fuel - 1) as nat)
            } else if spec_tag_at(file, ptr, 0x43, 0x4F, 0x52, 0x45) {
                if len < 0xC0 || !spec_core_regions_ok(file, sram_len, body) {
                    Some(RestoreError::BlockOverflow)
                } else {
                    spec_bess_blocks_error(file, sram_len, next, (fuel - 1) as nat)
                }
            } else if spec_tag_at(file, ptr, 0x4D, 0x42, 0x43, 0x20) {
                if len % 3 != 0 {
                    Some(RestoreError::MbcMisaligned)
                } else if !spec_mbc_addrs_ok(file, body, 0, len / 3) {
                    Some(RestoreError::MbcBadAddress)
                } else {
                    spec_bess_blocks_error(file, sram_len, next, (fuel - 1) as nat)
                }
            } else {
                Some(RestoreError::UnknownBlock)
            }
        }
    }
}

/// The I/O-region replay of a CORE block: bytes `0x18..0x98` written
/// through the bus to 0xFF00-0xFF7F, except that a DIV byte loads the
/// sysclock's upper half directly and the OAM DMA trigger is skipped.
pub open spec fn spec_replay_io(m: MemView, file: Seq<u8>, body: int, i: int) -> MemView
    decreases 0x80 - i,
{
    if i < 0 || i >= 0x80 {
        m
    } else {
        let v = file[body + 0x18 + i];
        let m2 = if i == 4 {
            MemView { timer: Timer { sysclock: (v as u16) << 8, ..m.timer }, ..m }
        } else if i == 0x46 {
            m
        } else {
            m.spec_write((0xFF00 + i) as u16, v)
        };
        spec_replay_io(m2, file, body, i + 1)
    }
}

/// A memory region rebuilt byte by byte through the bus.
pub open spec fn spec_replay_region(
    m: MemView,
    file: Seq<u8>,
    base: int,
    src: int,
    i: int,
    n: int,
) -> MemView
    decreases n - i,
{
    if i < 0 || i >= n {
        m
    } else {
        spec_replay_region(
            m.spec_write((base + i) as u16, file[src + i]),
            file,
            base,
            src,
            i + 1,
            n,
        )
    }
}

/// The external-RAM image rebuilt directly, bank decoding bypassed.
pub open spec fn spec_replay_sram(m: MemView, file: Seq<u8>, src: int, i: int, n: int) -> MemView
    decreases n - i,
{
    if i < 0 || i >= n {
        m
    } else {
        spec_replay_sram(
            MemView { sram: m.sram.update(i, file[src + i]), ..m },
            file,
            src,
            i + 1,
            n,
        )
    }
}

/// The MBC tuples replayed through the bus, driving the bank-control
/// registers.
pub open spec fn spec_replay_mbc(m: MemView, file: Seq<u8>, body: int, i: int, k: int) -> MemView
    decreases k - i,
{
    if i < 0 || i >= k {
        m
    } else {
        let addr = file[body + 3 * i] + 0x100 * file[body + 3 * i + 1];
        spec_replay_mbc(
            m.spec_write(addr as u16, file[body + 3 * i + 2]),
            file,
            body,
            i + 1,
            k,
        )
    }
}

/// The core after one CORE block: the CPU state bytes loaded, the I/O
/// region replayed, then the five memory regions rebuilt from their
/// size/offset pairs.
#[verifier::opaque]
pub open spec fn spec_apply_core(c: CpuView, file: Seq<u8>, body: int) -> CpuView {
    let c1 = CpuView {
        regs: Registers {
            f: file[body + 0x0A],
            a: file[body + 0x0B],
            c: file[body + 0x0C],
            b: file[body + 0x0D],
            e: file[body + 0x0E],
            d: file[body + 0x0F],
            l: file[body + 0x10],
            h: file[body + 0x11],
        },
        pc: (file[body + 0x08] + 0x100 * file[body + 0x09]) as u16,
        sp: (file[body + 0x12] + 0x100 * file[body + 0x13]) as u16,
        ime: file[body + 0x14] == 1,
        halted: file[body + 0x16] == 1,
        bus: MemView { ie_reg: file[body + 0x15], ..c.bus },
        ..c
    };
    let m1 = spec_replay_io(c1.bus, file, body, 0);
    let m2 = spec_replay_region(
        m1,
        file,
        0xC000,
        spec_le32_at(file, body + 0x9C),
        0,
        spec_le32_at(file, body + 0x98),
    );
    let m3 = spec_replay_region(
        m2,
        file,
        0x8000,
        spec_le32_at(file, body + 0xA4),
        0,
        spec_le32_at(file, body + 0xA0),
    );
    let m4 = spec_replay_sram(
        m3,
        file,
        spec_le32_at(file, body + 0xAC),
        0,
        spec_le32_at(file, body + 0xA8),
    );
    let m5 = spec_replay_region(
        m4,
        file,
        0xFE00,
        spec_le32_at(file, body + 0xB4),
        0,
        spec_le32_at(file, body + 0xB0),
    );
    let m6 = spec_replay_region(
        m5,
        file,
        0xFF80,
        spec_le32_at(file, body + 0xBC),
        0,
        spec_le32_at(file, body + 0xB8),
    );
    CpuView { bus: m6, ..c1 }
}

/// The core after walking the block chain at `ptr`, applying CORE and MBC
/// blocks and skipping the informational ones.
#[verifier::opaque]
pub open spec fn spec_apply_blocks(c: CpuView, file: Seq<u8>, ptr: int, fuel: nat) -> CpuView
    decreases fuel,
{
    if fuel == 0 {
        c
    } else if ptr < 0 || ptr + 8 > file.len() {
        c
    } else {
        let len = spec_le32_at(file, ptr + 4);
        if ptr + 8 + len > file.len() {
            c
        } else {
            let body = ptr + 8;
            let next = ptr + 8 + len;
            if spec_tag_at(file, ptr, 0x45, 0x4E, 0x44, 0x20) {
                c
            } else if spec_tag_at(file, ptr, 0x43, 0x4F, 0x52, 0x45) {
                spec_apply_blocks(spec_apply_core(c, file, body), file, next, (fuel - 1) as nat)
            } else if spec_tag_at(file, ptr, 0x4D, 0x42, 0x43, 0x20) {
                spec_apply_blocks(
                    CpuView { bus: spec_replay_mbc(c.bus, file, body, 0, len / 3), ..c },
                    file,
                    next,
                    (fuel - 1) as nat,
                )
            } else {
                spec_apply_blocks(c, file, next, (fuel - 1) as nat)
            }
        }
    }
}

/// Why a save-state file is refused, if it is: a missing signature, then
/// the first block-chain refusal.
#[verifier::opaque]
pub open spec fn spec_restore_error(c: CpuView, file: Seq<u8>) -> Option<RestoreError> {
    if file.len() < 8 || !spec_tag_at(file, file.len() - 4, 0x42, 0x45, 0x53, 0x53) {
        Some(RestoreError::MissingSignature)
    } else {
        spec_bess_blocks_error(
            file,
            c.bus.sram.len() as int,
            spec_le32_at(file, file.len() - 8),
            file.len() as nat,
        )
    }
}

/// The core after restoring a well-formed save-state file: the block
/// chain applied, the in-flight instruction and dispatch cleared, and the
/// interrupt requests zeroed.
#[verifier::opaque]
pub open spec fn spec_restore(c: CpuView, file: Seq<u8>) -> CpuView {
    let c1 = spec_apply_blocks(
        c,
        file,
        spec_le32_at(file, file.len() - 8),
        file.len() as nat,
    );
    CpuView { tick: None, int_state: None, bus: MemView { if_reg: 0, ..c1.bus }, ..c1 }
}

/// The header of one block: its tag bytes, payload length, and the
/// positions of its payload and of the following block.
pub struct BlockHead {
    pub t0: u8,
    pub t1: u8,
    pub t2: u8,
    pub t3: u8,
    pub len: u32,
    pub body: usize,
    pub next: usize,
}

/// Read the 32-bit little-endian value at `p`.
fn read_le32(file: &Vec<u8>, p: usize) -> (r: u32)
    requires
        p + 4 <= file@.len(),
    ensures
        r as int == spec_le32_at(file@, p as int),
{
    let n = file.len();
    (file[p] as u32) + 0x100 * (file[p + 1] as u32) + 0x10000 * (file[p + 2] as u32) + 0x1000000
        * (file[p + 3] as u32)
}

impl CPU {
    /// Assemble one labeled block around a payload.
    fn create_block(t0: u8, t1: u8, t2: u8, t3: u8, payload: &Vec<u8>) -> (r: Vec<u8>)
        requires
            payload@.len() < 0x100000000,
        ensures
            r@ == spec_block(seq![t0, t1, t2, t3], payload@),
    {
        let mut r: Vec<u8> = Vec::new();
        r.push(t0);
        r.push(t1);
        r.push(t2);
        r.push(t3);
        append_u32le(&mut r, payload.len() as u32);
        append_bytes(&mut r, payload);
        proof {
            assert(r@ =~= spec_block(seq![t0, t1, t2, t3], payload@));
        }
        r
    }

    /// The head of the CORE payload: version, model identifier, the CPU
    /// state bytes, and the 128-byte I/O-region snapshot. The regions'
    /// size/offset pairs follow once `aggregate_buffers` has produced
    /// them.
    fn create_core_block(&self) -> (r: Vec<u8>)
        requires
            self@.wf(),
        ensures
            r@ == spec_core_head(self@),
            r@.len() == 152,
    {
        proof {
            reveal(spec_core_head);
        }
        let mut r: Vec<u8> = Vec::new();
        r.push(1);
        r.push(0);
        r.push(1);
        r.push(0);
        r.push(0x47);
        r.push(0x44);
        r.push(0x20);
        r.push(0x20);
        r.push((self.pc & 0xFF) as u8);
        r.push((self.pc >> 8) as u8);
        r.push(self.registers.f);
        r.push(self.registers.a);
        r.push(self.registers.c);
        r.push(self.registers.b);
        r.push(self.registers.e);
        r.push(self.registers.d);
        r.push(self.registers.l);
        r.push(self.registers.h);
        r.push((self.sp & 0xFF) as u8);
        r.push((self.sp >> 8) as u8);
        r.push(
            if self.ime {
                1
            } else {
                0
            },
        );
        r.push(self.bus.ie_reg);
        r.push(
            if self.is_halted {
                1
            } else {
                0
            },
        );
        r.push(0);
        proof {
            assert(r@ =~= spec_core_head(self@).take(24));
        }
        let mut i: usize = 0;
        while i < 128
            invariant
                self@.wf(),
                i <= 128,
                r@.len() == 24 + i,
                forall|k: int| 0 <= k < 24 ==> r@[k] == spec_core_head(self@)[k],
                forall|j: int|
                    24 <= j < 24 + i ==> r@[j] == self@.bus.spec_read(
                        (0xFF00 + (j - 24)) as u16,
                    ),
            decreases 128 - i,
        {
            let b = self.bus.read(0xFF00 + (i as u16));
            r.push(b);
            i = i + 1;
        }
        proof {
            reveal(spec_core_head);
            assert(r@ =~= spec_core_head(self@));
        }
        r
    }

    /// Build the whole save-state file and reset the offset scratch; see
    /// `spec_save_file`.
    #[verifier::rlimit(100)]
    pub fn create_save_file(&mut self) -> (r: Vec<u8>)
        requires
            old(self)@.wf(),
            old(self)@.bus.bess_buffer_offsets.len() == 0,
        ensures
            r@ == spec_save_file(old(self)@),
            final(self)@ == old(self)@,
            final(self)@.wf(),
    {
        proof {
            reveal(spec_save_file);
        }
        let mut core = self.create_core_block();
        let name: Vec<u8> = name_payload();
        let info = self.bus.get_rom_info();
        let mbc = self.bus.create_bess_mbc_block();
        let large = self.bus.aggregate_buffers();
        let mut offs: Vec<u8> = Vec::new();
        core::mem::swap(&mut self.bus.bess_buffer_offsets, &mut offs);
        append_bytes(&mut core, &offs);
        proof {
            reveal(spec_core_payload);
            assert(old(self)@.bus.bess_buffer_offsets =~= Seq::<u8>::empty());
            assert(offs@ =~= old(self)@.bus.spec_bess_offsets());
            assert(core@ =~= spec_core_payload(old(self)@));
            reveal(MemView::spec_rom_info);
            reveal(MemView::spec_bess_mbc_block);
            assert(self@ =~~= old(self)@);
        }
        let mut out: Vec<u8> = Vec::new();
        append_bytes(&mut out, &large);
        let blk = Self::create_block(0x4E, 0x41, 0x4D, 0x45, &name);
        append_bytes(&mut out, &blk);
        let blk = Self::create_block(0x49, 0x4E, 0x46, 0x4F, &info);
        append_bytes(&mut out, &blk);
        let blk = Self::create_block(0x43, 0x4F, 0x52, 0x45, &core);
        append_bytes(&mut out, &blk);
        match mbc {
            Some(m) => {
                let blk = Self::create_block(0x4D, 0x42, 0x43, 0x20, &m);
                append_bytes(&mut out, &blk);
            },
            None => {},
        }
        let empty: Vec<u8> = Vec::new();
        let blk = Self::create_block(0x45, 0x4E, 0x44, 0x20, &empty);
        append_bytes(&mut out, &blk);
        append_u32le(&mut out, large.len() as u32);
        out.push(0x42);
        out.push(0x45);
        out.push(0x53);
        out.push(0x53);
        proof {
            assert(out@ =~= spec_save_file(old(self)@));
        }
        out
    }
}

/// The NAME payload: this core's identity.
fn name_payload() -> (r: Vec<u8>)
    ensures
        r@ == seq![0x67u8, 0x62u8, 0x63u8, 0x6Fu8, 0x72u8, 0x65u8],
{
    let mut r: Vec<u8> = Vec::new();
    r.push(0x67);
    r.push(0x62);
    r.push(0x63);
    r.push(0x6F);
    r.push(0x72);
    r.push(0x65);
    proof {
        assert(r@ =~= seq![0x67u8, 0x62u8, 0x63u8, 0x6Fu8, 0x72u8, 0x65u8]);
    }
    r
}

/// Read the header of the block at `ptr`: its tag, payload length and
/// the payload and successor positions. Nothing when the header or the
/// payload runs past the file.
fn next_block(file: &Vec<u8>, ptr: usize) -> (r: Option<BlockHead>)
    ensures
        match r {
            None => ptr + 8 > file@.len() || (ptr + 8 <= file@.len() && ptr + 8 + spec_le32_at(
                file@,
                ptr + 4,
            ) > file@.len()),
            Some(h) => {
                &&& ptr + 8 <= file@.len()
                &&& h.t0 == file@[ptr as int]
                &&& h.t1 == file@[ptr + 1]
                &&& h.t2 == file@[ptr + 2]
                &&& h.t3 == file@[ptr + 3]
                &&& h.len as int == spec_le32_at(file@, ptr + 4)
                &&& h.body == ptr + 8
                &&& h.next as int == ptr + 8 + h.len
                &&& h.next <= file@.len()
            },
        },
{
    let n = file.len();
    if ptr > n || n - ptr < 8 {
        return None;
    }
    let len = read_le32(file, ptr + 4);
    if (len as u64) > ((n - ptr - 8) as u64) {
        return None;
    }
    Some(
        BlockHead {
            t0: file[ptr],
            t1: file[ptr + 1],
            t2: file[ptr + 2],
            t3: file[ptr + 3],
            len: len,
            body: ptr + 8,
            next: ptr + 8 + (len as usize),
        },
    )
}

/// Check one CORE block's length and region descriptors.
fn check_core(file: &Vec<u8>, sram_len: usize, body: usize, len: u32) -> (ok: bool)
    requires
        body + len <= file@.len(),
        len >= 0xC0,
    ensures
        ok == spec_core_regions_ok(file@, sram_len as int, body as int),
{
    let n = file.len();
    let wram_size = read_le32(file, body + 0x98);
    let wram_off = read_le32(file, body + 0x9C);
    let vram_size = read_le32(file, body + 0xA0);
    let vram_off = read_le32(file, body + 0xA4);
    let sram_size = read_le32(file, body + 0xA8);
    let sram_off = read_le32(file, body + 0xAC);
    let oam_size = read_le32(file, body + 0xB0);
    let oam_off = read_le32(file, body + 0xB4);
    let hram_size = read_le32(file, body + 0xB8);
    let hram_off = read_le32(file, body + 0xBC);
    wram_size <= 0x2000 && (wram_off as u64) + (wram_size as u64) <= (n as u64) && vram_size
        <= 0x2000 && (vram_off as u64) + (vram_size as u64) <= (n as u64) && (sram_size as u64)
        <= (sram_len as u64) && (sram_off as u64) + (sram_size as u64) <= (n as u64) && oam_size
        <= 160 && (oam_off as u64) + (oam_size as u64) <= (n as u64) && hram_size <= 0x7F && (
    hram_off as u64) + (hram_size as u64) <= (n as u64)
}

/// Check that every MBC tuple names a bank-control address.
fn check_mbc_addrs(file: &Vec<u8>, body: usize, k: usize) -> (ok: bool)
    requires
        body + 3 * k <= file@.len(),
    ensures
        ok == spec_mbc_addrs_ok(file@, body as int, 0, k as int),
{
    let n = file.len();
    let mut i: usize = 0;
    let mut ok = true;
    while i < k
        invariant
            i <= k,
            body + 3 * k <= file@.len(),
            file@.len() == n,
            ok == spec_mbc_addrs_ok(file@, body as int, 0, i as int),
        decreases k - i,
    {
        let addr: u32 = (file[body + 3 * i] as u32) + 0x100 * (file[body + 3 * i + 1] as u32);
        let this_ok = addr < 0x8000 || (0xA000 <= addr && addr < 0xC000);
        proof {
            lemma_mbc_addrs_snoc(file@, body as int, 0, i as int);
        }
        ok = ok && this_ok;
        i = i + 1;
    }
    ok
}

/// Extending an all-addresses-good run of tuples by one more keeps it
/// good exactly when the new tuple is good.
proof fn lemma_mbc_addrs_snoc(file: Seq<u8>, body: int, j: int, i: int)
    requires
        0 <= j <= i,
    ensures
        spec_mbc_addrs_ok(file, body, j, i + 1) == (spec_mbc_addrs_ok(file, body, j, i) && ({
            let addr = file[body + 3 * i] + 0x100 * file[body + 3 * i + 1];
            addr < 0x8000 || (0xA000 <= addr && addr < 0xC000)
        })),
    decreases i - j,
{
    if j < i {
        lemma_mbc_addrs_snoc(file, body, j + 1, i);
    } else {
        assert(spec_mbc_addrs_ok(file, body, i + 1, i + 1));
        assert(spec_mbc_addrs_ok(file, body, i, i));
    }
}

impl Memory {
    /// Replay a CORE block's I/O snapshot; see `spec_replay_io`.
    fn replay_io(&mut self, file: &Vec<u8>, body: usize)
        requires
            old(self)@.wf(),
            body + 0x98 <= file@.len(),
        ensures
            final(self)@ == spec_replay_io(old(self)@, file@, body as int, 0),
            final(self)@.wf(),
            final(self)@.sram.len() == old(self)@.sram.len(),
    {
        let n = file.len();
        let mut i: usize = 0;
        while i < 0x80
            invariant
                self@.wf(),
                i <= 0x80,
                body + 0x98 <= n,
                file@.len() == n,
                self@.sram.len() == old(self)@.sram.len(),
                spec_replay_io(self@, file@, body as int, i as int) == spec_replay_io(
                    old(self)@,
                    file@,
                    body as int,
                    0,
                ),
            decreases 0x80 - i,
        {
            let v = file[body + 0x18 + i];
            if i == 4 {
                self.timer.sysclock = (v as u16) << 8;
            } else if i == 0x46 {
            } else {
                self.write(0xFF00 + (i as u16), v);
            }
            i = i + 1;
        }
    }

    /// Rebuild one memory region through the bus; see
    /// `spec_replay_region`.
    fn replay_region(&mut self, file: &Vec<u8>, base: u16, src: usize, count: usize)
        requires
            old(self)@.wf(),
            src + count <= file@.len(),
            base as int + count <= 0x10000,
        ensures
            final(self)@ == spec_replay_region(
                old(self)@,
                file@,
                base as int,
                src as int,
                0,
                count as int,
            ),
            final(self)@.wf(),
            final(self)@.sram.len() == old(self)@.sram.len(),
    {
        let n = file.len();
        let mut i: usize = 0;
        while i < count
            invariant
                self@.wf(),
                i <= count,
                src + count <= n,
                file@.len() == n,
                base as int + count <= 0x10000,
                self@.sram.len() == old(self)@.sram.len(),
                spec_replay_region(self@, file@, base as int, src as int, i as int, count as int)
                    == spec_replay_region(
                    old(self)@,
                    file@,
                    base as int,
                    src as int,
                    0,
                    count as int,
                ),
            decreases count - i,
        {
            let v = file[src + i];
            self.write(base + (i as u16), v);
            i = i + 1;
        }
    }

    /// Rebuild the external-RAM image directly; see `spec_replay_sram`.
    fn replay_sram(&mut self, file: &Vec<u8>, src: usize, count: usize)
        requires
            old(self)@.wf(),
            src + count <= file@.len(),
            count <= old(self)@.sram.len(),
        ensures
            final(self)@ == spec_replay_sram(old(self)@, file@, src as int, 0, count as int),
            final(self)@.wf(),
            final(self)@.sram.len() == old(self)@.sram.len(),
    {
        let n = file.len();
        let mut i: usize = 0;
        while i < count
            invariant
                self@.wf(),
                i <= count,
                src + count <= n,
                file@.len() == n,
                count <= self@.sram.len(),
                self@.sram.len() == old(self)@.sram.len(),
                spec_replay_sram(self@, file@, src as int, i as int, count as int)
                    == spec_replay_sram(old(self)@, file@, src as int, 0, count as int),
            decreases count - i,
        {
            let v = file[src + i];
            self.sram.set(i, v);
            i = i + 1;
        }
    }

    /// Replay the MBC tuples through the bus; see `spec_replay_mbc`.
    fn replay_mbc(&mut self, file: &Vec<u8>, body: usize, k: usize)
        requires
            old(self)@.wf(),
            body + 3 * k <= file@.len(),
        ensures
            final(self)@ == spec_replay_mbc(old(self)@, file@, body as int, 0, k as int),
            final(self)@.wf(),
            final(self)@.sram.len() == old(self)@.sram.len(),
    {
        let n = file.len();
        let mut i: usize = 0;
        while i < k
            invariant
                self@.wf(),
                i <= k,
                body + 3 * k <= n,
                file@.len() == n,
                self@.sram.len() == old(self)@.sram.len(),
                spec_replay_mbc(self@, file@, body as int, i as int, k as int) == spec_replay_mbc(
                    old(self)@,
                    file@,
                    body as int,
                    0,
                    k as int,
                ),
            decreases k - i,
        {
            let addr: u16 = (file[body + 3 * i] as u16) + 0x100 * (file[body + 3 * i + 1] as u16);
            let v = file[body + 3 * i + 2];
            self.write(addr, v);
            i = i + 1;
        }
    }
}

impl CPU {
    /// Apply one CORE block; see `spec_apply_core`.
    #[verifier::rlimit(100)]
    fn apply_core(&mut self, file: &Vec<u8>, body: usize, len: u32)
        requires
            old(self)@.wf(),
            body + len <= file@.len(),
            len >= 0xC0,
            spec_core_regions_ok(file@, old(self)@.bus.sram.len() as int, body as int),
        ensures
            final(self)@ == spec_apply_core(old(self)@, file@, body as int),
            final(self)@.wf(),
            final(self)@.bus.sram.len() == old(self)@.bus.sram.len(),
    {
        proof {
            reveal(spec_apply_core);
        }
        let n = file.len();
        self.registers.f = file[body + 0x0A];
        self.registers.a = file[body + 0x0B];
        self.registers.c = file[body + 0x0C];
        self.registers.b = file[body + 0x0D];
        self.registers.e = file[body + 0x0E];
        self.registers.d = file[body + 0x0F];
        self.registers.l = file[body + 0x10];
        self.registers.h = file[body + 0x11];
        self.pc = (file[body + 0x08] as u16) + 0x100 * (file[body + 0x09] as u16);
        self.sp = (file[body + 0x12] as u16) + 0x100 * (file[body + 0x13] as u16);
        self.ime = file[body + 0x14] == 1;
        self.bus.ie_reg = file[body + 0x15];
        self.is_halted = file[body + 0x16] == 1;
        self.bus.replay_io(file, body);
        let wram_size = read_le32(file, body + 0x98);
        let wram_off = read_le32(file, body + 0x9C);
        self.bus.replay_region(file, 0xC000, wram_off as usize, wram_size as usize);
        let vram_size = read_le32(file, body + 0xA0);
        let vram_off = read_le32(file, body + 0xA4);
        self.bus.replay_region(file, 0x8000, vram_off as usize, vram_size as usize);
        let sram_size = read_le32(file, body + 0xA8);
        let sram_off = read_le32(file, body + 0xAC);
        self.bus.replay_sram(file, sram_off as usize, sram_size as usize);
        let oam_size = read_le32(file, body + 0xB0);
        let oam_off = read_le32(file, body + 0xB4);
        self.bus.replay_region(file, 0xFE00, oam_off as usize, oam_size as usize);
        let hram_size = read_le32(file, body + 0xB8);
        let hram_off = read_le32(file, body + 0xBC);
        self.bus.replay_region(file, 0xFF80, hram_off as usize, hram_size as usize);
        proof {
            assert(self@ == spec_apply_core(old(self)@, file@, body as int));
        }
    }

    /// Walk and apply a validated block chain; see `spec_apply_blocks`.
    #[verifier::rlimit(100)]
    fn apply_blocks(&mut self, file: &Vec<u8>, start: usize)
        requires
            old(self)@.wf(),
            spec_bess_blocks_error(
                file@,
                old(self)@.bus.sram.len() as int,
                start as int,
                file@.len() as nat,
            ) is None,
        ensures
            final(self)@ == spec_apply_blocks(
                old(self)@,
                file@,
                start as int,
                file@.len() as nat,
            ),
            final(self)@.wf(),
    {
        let ghost sl0: int = old(self)@.bus.sram.len() as int;
        let mut ptr: usize = start;
        let mut fuel: usize = file.len();
        while fuel > 0
            invariant
                self@.wf(),
                self@.bus.sram.len() as int == sl0,
                spec_bess_blocks_error(file@, sl0, ptr as int, fuel as nat) is None,
                spec_apply_blocks(self@, file@, ptr as int, fuel as nat) == spec_apply_blocks(
                    old(self)@,
                    file@,
                    start as int,
                    file@.len() as nat,
                ),
            decreases fuel,
        {
            proof {
                reveal(spec_bess_blocks_error);
                reveal(spec_apply_blocks);
            }
            let h = match next_block(file, ptr) {
                Some(h) => h,
                None => {
                    proof {
                        assert(false);
                    }
                    return ;
                },
            };
            if h.t0 == 0x45 && h.t1 == 0x4E && h.t2 == 0x44 && h.t3 == 0x20 {
                return ;
            } else if h.t0 == 0x43 && h.t1 == 0x4F && h.t2 == 0x52 && h.t3 == 0x45 {
                self.apply_core(file, h.body, h.len);
            } else if h.t0 == 0x4D && h.t1 == 0x42 && h.t2 == 0x43 && h.t3 == 0x20 {
                self.bus.replay_mbc(file, h.body, (h.len as usize) / 3);
            }
            ptr = h.next;
            fuel = fuel - 1;
        }
        proof {
            reveal(spec_bess_blocks_error);
            assert(false);
        }
    }

    /// Restore a save-state file: refuse a malformed one with the core
    /// untouched; otherwise load the CORE state, replay the I/O region
    /// (DIV loading the sysclock directly, the DMA trigger skipped),
    /// rebuild the five memory regions, re-drive the bank-control
    /// registers, clear the in-flight instruction and dispatch, and zero
    /// the interrupt requests.
    pub fn load_save_file(&mut self, file: Vec<u8>) -> (r: Result<(), RestoreError>)
        requires
            old(self)@.wf(),
        ensures
            final(self)@.wf(),
            match r {
                Ok(()) => spec_restore_error(old(self)@, file@) is None && final(self)@
                    == spec_restore(old(self)@, file@),
                Err(e) => spec_restore_error(old(self)@, file@) == Some(e) && final(self)@ == old(
                    self,
                )@,
            },
    {
        proof {
            reveal(spec_restore_error);
            reveal(spec_restore);
        }
        let n = file.len();
        if n < 8 {
            return Err(RestoreError::MissingSignature);
        }
        if !(file[n - 4] == 0x42 && file[n - 3] == 0x45 && file[n - 2] == 0x53 && file[n - 1]
            == 0x53) {
            return Err(RestoreError::MissingSignature);
        }
        let start32 = read_le32(&file, n - 8);
        let start = start32 as usize;
        match validate_blocks(&file, self.bus.sram.len(), start) {
            Some(e) => {
                return Err(e);
            },
            None => {},
        }
        self.apply_blocks(&file, start);
        self.tick_state = None;
        self.interrupt_tick_state = None;
        self.bus.if_reg = 0;
        proof {
            assert(self@ =~~= spec_restore(old(self)@, file@));
        }
        Ok(())
    }
}

/// Walk the block chain checking every header, payload, CORE region and
/// MBC tuple; see `spec_bess_blocks_error`.
fn validate_blocks(file: &Vec<u8>, sram_len: usize, start: usize) -> (r: Option<RestoreError>)
    ensures
        r == spec_bess_blocks_error(file@, sram_len as int, start as int, file@.len() as nat),
{
    let mut ptr: usize = start;
    let mut fuel: usize = file.len();
    while fuel > 0
        invariant
            spec_bess_blocks_error(file@, sram_len as int, ptr as int, fuel as nat)
                == spec_bess_blocks_error(
                file@,
                sram_len as int,
                start as int,
                file@.len() as nat,
            ),
        decreases fuel,
    {
        proof {
            reveal(spec_bess_blocks_error);
        }
        let h = match next_block(file, ptr) {
            Some(h) => h,
            None => {
                return Some(RestoreError::BlockOverflow);
            },
        };
        if h.t0 == 0x45 && h.t1 == 0x4E && h.t2 == 0x44 && h.t3 == 0x20 {
            return None;
        } else if (h.t0 == 0x4E && h.t1 == 0x41 && h.t2 == 0x4D && h.t3 == 0x45) || (h.t0 == 0x49
            && h.t1 == 0x4E && h.t2 == 0x46 && h.t3 == 0x4F) || (h.t0 == 0x58 && h.t1 == 0x4F
            && h.t2 == 0x41 && h.t3 == 0x4D) {
        } else if h.t0 == 0x43 && h.t1 == 0x4F && h.t2 == 0x52 && h.t3 == 0x45 {
            if h.len < 0xC0 {
                return Some(RestoreError::BlockOverflow);
            }
            if !check_core(file, sram_len, h.body, h.len) {
                return Some(RestoreError::BlockOverflow);
            }
        } else if h.t0 == 0x4D && h.t1 == 0x42 && h.t2 == 0x43 && h.t3 == 0x20 {
            if (h.len as usize) % 3 != 0 {
                return Some(RestoreError::MbcMisaligned);
            }
            if !check_mbc_addrs(file, h.body, (h.len as usize) / 3) {
                return Some(RestoreError::MbcBadAddress);
            }
        } else {
            return Some(RestoreError::UnknownBlock);
        }
        ptr = h.next;
        fuel = fuel - 1;
    }
    proof {
        reveal(spec_bess_blocks_error);
    }
    Some(RestoreError::BlockOverflow)
}

} // verus!
