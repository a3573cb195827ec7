//! Laws of the core, proved once over the spec-level models: the
//! five-cycle interrupt dispatch, the EI delay slot, the halt bug, the
//! POP AF/PUSH AF/POP AF round trip, the MBC1 bank selection rule, and
//! the end of mode 3 at pixel 160.
use crate::cpu::CpuView;
use crate::cpu::Interrupt;
use crate::cpu::InterruptTickState;
use crate::cpu::TickView;
use crate::cpu::spec_vector;
use crate::memory::MemView;
use crate::micro::MicroInstr;
use crate::ppu::Mode;
use crate::ppu::PpuView;
use vstd::prelude::*;

verus! {

/// A requested-and-enabled interrupt is dispatched in exactly five
/// machine cycles: two idle steps, the PC pushed high byte then low byte
/// with SP stepping down twice, then the vector loaded — 0x40 plus eight
/// times the priority index, which `spec_vector` enumerates. Registers,
/// IME and the halt state are untouched.
pub proof fn lemma_interrupt_dispatch_five_cycles(c: CpuView, i: Interrupt)
    requires
        c.int_state == Some(InterruptTickState { interrupt: i, step: 0 }),
    ensures
        ({
            let c5 = c.spec_execute_interrupt().spec_execute_interrupt().spec_execute_interrupt()
                .spec_execute_interrupt().spec_execute_interrupt();
            &&& c5.pc == spec_vector(i)
            &&& c5.int_state is None
            &&& c5.sp == c.sp.wrapping_sub(2)
            &&& c5.bus == c.bus.spec_write(c.sp.wrapping_sub(1), (c.pc >> 8) as u8).spec_write(
                c.sp.wrapping_sub(2),
                (c.pc & 0xFF) as u8,
            )
            &&& c5.regs == c.regs
            &&& c5.ime == c.ime
            &&& c5.halted == c.halted
            &&& c5.tick == c.tick
        }),
{
    reveal(CpuView::spec_execute_interrupt);
    let sp0 = c.sp;
    assert(sp0.wrapping_sub(1).wrapping_sub(1) == sp0.wrapping_sub(2)) by (bit_vector);
}

/// The EI delay slot: EI arms a two-step latch, so IME is still off when
/// EI retires and the following instruction cannot be dispatched into;
/// IME turns on when that instruction retires, so the one after it can be
/// interrupted. A DI inside the window drops IME and cancels the pending
/// enable at once, and RETI arms the same two-step latch as EI.
pub proof fn lemma_ei_delay_slot(c: CpuView)
    requires
        !c.ime,
    ensures
        ({
            let c1 = c.spec_micro_misc(MicroInstr::EI);
            let c2 = c1.spec_retire();  // EI retires
            let c3 = c2.spec_retire();  // the following instruction retires
            &&& !c1.ime && c1.should_enable_ime == 2
            &&& !c2.ime  // the instruction after EI cannot be interrupted
            &&& c2.spec_check_interrupts() == c2  // no dispatch can begin
            &&& c3.ime  // the second instruction after EI can be
            &&& !c2.spec_micro_misc(MicroInstr::DI).ime
            &&& c2.spec_micro_misc(MicroInstr::DI).should_enable_ime == 0
        }),
{
    reveal(CpuView::spec_micro_misc);
    reveal(CpuView::spec_check_interrupts);
}

/// RETI arms the same two-step IME latch as EI.
pub proof fn lemma_reti_arms_ime_latch(c: CpuView, t: TickView)
    ensures
        c.spec_micro_flow(t, MicroInstr::RETI).0.should_enable_ime == 2,
        c.spec_micro_flow(t, MicroInstr::RETI).0.ime == c.ime,
{
    reveal(CpuView::spec_micro_flow);
}


/// Every executor cycle consumes exactly one micro-op of the in-flight
/// queue: the queue retires exactly when its last step ran, so an
/// instruction's machine-cycle count is its queue length — and a failed
/// condition truncates the queue at once, giving untaken branches their
/// shorter count. HALT is excluded: it stalls the step counter instead.
#[verifier::rlimit(100)]
pub proof fn lemma_execute_consumes_one_step(c: CpuView)
    requires
        !c.fault,
        !c.halted,
        c.tick is Some,
        !c.tick.unwrap().is_prefix,
        c.tick.unwrap().step < c.tick.unwrap().instr.len(),
        c.tick.unwrap().instr.len() <= usize::MAX,
        c.tick.unwrap().instr[c.tick.unwrap().step as int] != MicroInstr::HALT,
    ensures
        ({
            let t = c.tick.unwrap();
            let m = t.instr[t.step as int];
            let q = c.spec_execute();
            if (match m {
                MicroInstr::Cond(flag, expected) => c.regs.spec_get_flag(flag) != (if expected {
                    1u8
                } else {
                    0u8
                }),
                _ => false,
            }) {
                q.tick is None  // untaken branch: the queue is truncated
            } else if t.step + 1 == t.instr.len() {
                q.tick is None  // the last micro-op retires the instruction
            } else {
                q.tick is Some && q.tick.unwrap().step == t.step + 1 && q.tick.unwrap().instr
                    == t.instr
            }
        }),
{
    reveal(CpuView::spec_execute);
    reveal(CpuView::spec_exec_micro_step);
    reveal(CpuView::spec_post);
    let t = c.tick.unwrap();
    let m = t.instr[t.step as int];
    let c_base = CpuView { tick: None, ..c };
    let r = c_base.spec_micro(t, m);
    match m {
        MicroInstr::Cond(_, _) => {
        },
        MicroInstr::Read(_) | MicroInstr::LDRN(_) | MicroInstr::LDRR(_, _)
            | MicroInstr::LDAHLINC | MicroInstr::LDAHLDEC | MicroInstr::LDHLINCA
            | MicroInstr::LDHLDECA | MicroInstr::LDNNR(_, _, _) | MicroInstr::LDRNN(_, _, _)
            | MicroInstr::LDHLN | MicroInstr::LDSPNN | MicroInstr::LDNNSP(_)
            | MicroInstr::LDSPHL | MicroInstr::LDHLSPN => {
            reveal(CpuView::spec_micro_load);
            assert(!r.0.halted && r.0.tick is None && r.1.instr == t.instr && r.1.step == t.step);
        },
        MicroInstr::INC(_) | MicroInstr::DEC(_) | MicroInstr::INCHLADDR | MicroInstr::DECNN(_)
            | MicroInstr::INCHL | MicroInstr::DECHL | MicroInstr::INCBC | MicroInstr::DECBC
            | MicroInstr::INCDE | MicroInstr::DECDE | MicroInstr::INCSP | MicroInstr::DECSP => {
            reveal(CpuView::spec_micro_incdec);
            assert(!r.0.halted && r.0.tick is None && r.1.instr == t.instr && r.1.step == t.step);
        },
        MicroInstr::JP | MicroInstr::JPHL | MicroInstr::JR | MicroInstr::PUSH(_)
            | MicroInstr::POPPC(_) | MicroInstr::POPR(_) | MicroInstr::RST(_)
            | MicroInstr::RETI | MicroInstr::ADDSPN => {
            reveal(CpuView::spec_micro_flow);
            assert(!r.0.halted && r.0.tick is None && r.1.instr == t.instr && r.1.step == t.step);
        },
        MicroInstr::ADD(_) | MicroInstr::ADDN | MicroInstr::ADDHL | MicroInstr::ADC(_)
            | MicroInstr::ADCN | MicroInstr::ADCHL | MicroInstr::SUB(_) | MicroInstr::SUBN
            | MicroInstr::SUBHL | MicroInstr::SBC(_) | MicroInstr::SBCN | MicroInstr::SBCHL
            | MicroInstr::AND(_) | MicroInstr::ANDN | MicroInstr::ANDHL | MicroInstr::OR(_)
            | MicroInstr::ORN | MicroInstr::ORHL | MicroInstr::XOR(_) | MicroInstr::XORN
            | MicroInstr::XORHL | MicroInstr::CP(_) | MicroInstr::CPN | MicroInstr::CPHL
            | MicroInstr::ADDHLNN(_) | MicroInstr::DAA => {
            reveal(CpuView::spec_micro_alu);
            assert(!r.0.halted && r.0.tick is None && r.1.instr == t.instr && r.1.step == t.step);
        },
        MicroInstr::CPL | MicroInstr::SCF | MicroInstr::CCF | MicroInstr::NOP
            | MicroInstr::STOP | MicroInstr::DI | MicroInstr::EI | MicroInstr::HALT => {
            reveal(CpuView::spec_micro_misc);
            assert(!r.0.halted && r.0.tick is None && r.1.instr == t.instr && r.1.step == t.step);
        },
        _ => {
            reveal(CpuView::spec_micro_rot);
            assert(!r.0.halted && r.0.tick is None && r.1.instr == t.instr && r.1.step == t.step);
        },
    }
}

/// The halt bug: HALT executed with IME off and an interrupt already
/// requested and enabled does not halt but latches the bug, and the next
/// opcode fetch reads the byte at PC without advancing PC (and clears the
/// latch), so that byte is fetched twice.
pub proof fn lemma_halt_bug_fetches_twice(c: CpuView)
    requires
        !c.ime,
        c.bus.ie_reg & c.bus.if_reg & 0x1F != 0,
        !c.halted,
    ensures
        ({
            let c1 = c.spec_micro_misc(MicroInstr::HALT);
            &&& !c1.halted
            &&& c1.halt_bug
            &&& c1.spec_fetch().pc == c1.pc
            &&& !c1.spec_fetch().halt_bug
        }),
{
    reveal(CpuView::spec_micro_misc);
    reveal(CpuView::spec_fetch);
}

/// Writes to work RAM read back through the bus: the stack round-trips
/// there regardless of the PPU mode.
pub proof fn lemma_wram_round_trip(m: MemView, addr: u16, other: u16, val: u8)
    requires
        0xC000 <= addr < 0xE000,
        0xC000 <= other < 0xE000,
        m.wram.len() == 0x2000,
    ensures
        m.spec_write(addr, val).spec_read(addr) == val,
        other != addr ==> m.spec_write(other, val).spec_read(addr) == m.spec_read(addr),
        m.spec_write(addr, val).wram.len() == 0x2000,
{
    reveal(MemView::spec_read);
    reveal(MemView::spec_write);
}

/// The POP AF / PUSH AF / POP AF round trip over the stack slots in work
/// RAM: the first POP AF loads A and F (F's low nibble forced to zero,
/// as the POP-into-F micro-op does); PUSH AF stores exactly those bytes
/// back into the same two slots; the second POP AF then restores the
/// original high byte A and the masked F, whose low nibble is still zero.
pub proof fn lemma_pop_af_round_trip(m: MemView, sp0: u16)
    requires
        0xC000 <= sp0,
        sp0 + 1 < 0xE000,
        m.wram.len() == 0x2000,
    ensures
        ({
            // First POP AF: F from the low slot (masked), A from the high slot.
            let f1 = m.spec_read(sp0) & 0xF0;
            let a1 = m.spec_read((sp0 + 1) as u16);
            // PUSH AF writes A then F back into the same slots.
            let m1 = m.spec_write((sp0 + 1) as u16, a1).spec_write(sp0, f1);
            // Second POP AF.
            let f2 = m1.spec_read(sp0) & 0xF0;
            let a2 = m1.spec_read((sp0 + 1) as u16);
            &&& a2 == a1
            &&& f2 == f1
            &&& f1 & 0x0F == 0
            &&& f2 & 0x0F == 0
        }),
{
    let f1 = m.spec_read(sp0) & 0xF0;
    let a1 = m.spec_read((sp0 + 1) as u16);
    lemma_wram_round_trip(m, (sp0 + 1) as u16, sp0, a1);
    let ma = m.spec_write((sp0 + 1) as u16, a1);
    reveal(MemView::spec_write);
    lemma_wram_round_trip(ma, sp0, (sp0 + 1) as u16, f1);
    assert(ma.spec_write(sp0, f1).spec_read((sp0 + 1) as u16) == ma.spec_read((sp0 + 1) as u16))
        by {
        lemma_wram_round_trip(ma, sp0, (sp0 + 1) as u16, f1);
        reveal(MemView::spec_read);
        reveal(MemView::spec_write);
    }
    let v = m.spec_read(sp0);
    assert((v & 0xF0) & 0xF0 == v & 0xF0) by (bit_vector);
    assert((v & 0xF0) & 0x0F == 0) by (bit_vector);
}


/// Mode 3 ends exactly at pixel 160: when one drawing dot switches the
/// mode to H-blank, the scanline cursor stands at 160.
pub proof fn lemma_draw_dot_ends_at_pixel_160(p: PpuView)
    requires
        p.wf_core(),
        p.spec_mode() == Mode::DRAW,
    ensures
        ({
            let q = p.spec_draw_dot().0;
            q.spec_mode() == Mode::HBLANK ==> q.fs.scanline_x == 160
        }),
{
    reveal(PpuView::spec_draw_dot);
    let q = p.spec_draw_dot().0;
    let s0 = p.stat;
    assert((s0 & 0xFC) | 0 == s0 & 0xFC) by (bit_vector);
    assert(((s0 & 0xFC)) & 0x3 == 0) by (bit_vector);
}

/// The tick-level form: whenever a mode-3 tick transitions the PPU to
/// H-blank, the scanline cursor stands at 160 — all 160 pixels of the
/// line were pushed.
#[verifier::rlimit(100)]
pub proof fn lemma_mode3_ends_at_pixel_160(p: PpuView)
    requires
        p.wf(),
    ensures
        ({
            let q = p.spec_tick();
            (p.spec_mode() == Mode::DRAW && q.spec_mode() == Mode::HBLANK)
                ==> q.fs.scanline_x == 160
        }),
{
    reveal(PpuView::spec_tick);
    reveal(PpuView::spec_tick_draw);
    reveal(PpuView::spec_sprite_fetcher);
    reveal(PpuView::spec_bg_fetcher);
    reveal(PpuView::spec_draw_dot);
    let s0 = p.stat;
    assert(forall|s: u8, b: u8| b == 0 || b == 4 ==> ((s & 0xFB) | b) & 0x3 == s & 0x3)
        by (bit_vector);
    assert(forall|s: u8| ((s & 0xFC) | 0) & 0x3 == 0 && ((s & 0xFC) | 3) & 0x3 == 3)
        by (bit_vector);
}


/// Where in the 70,224-dot frame (154 scanlines of 456 dots) the PPU
/// stands: V-blank begins at dot 65,664 = 144 * 456.
pub open spec fn spec_frame_dot(p: PpuView) -> int {
    if p.spec_mode() != Mode::VBLANK {
        p.ly * 456 + p.scanline_timeline
    } else {
        65664 + p.vblank_timeline
    }
}

/// The frame period: every tick advances the frame position by exactly
/// two of the 70,224 dots, and the finished frame is latched exactly on
/// completing the last dot — so with two ticks per machine cycle a frame
/// takes exactly 70,224 / 4 = 17,556 machine cycles. Stated for phase-
/// aligned states (the only reachable ones): during OAM scan the dot
/// counter tracks the scan pointer, during V-blank it tracks the V-blank
/// counter, and mode 3 finishes before the scanline's last dot, as it
/// does on hardware.
#[verifier::rlimit(100)]
pub proof fn lemma_tick_advances_two_dots(p: PpuView)
    requires
        p.wf(),
        p.spec_mode() == Mode::OAMSCAN ==> p.scanline_timeline == 2 * p.fs.oam_ptr,
        p.spec_mode() == Mode::DRAW ==> p.scanline_timeline <= 452,
        p.spec_mode() == Mode::VBLANK ==> p.scanline_timeline == p.vblank_timeline % 456,
    ensures
        ({
            let q = p.spec_tick();
            &&& spec_frame_dot(q) == (spec_frame_dot(p) + 2) % 70224
            &&& q.rendered_frame == (p.rendered_frame || spec_frame_dot(p) + 2 == 70224)
        }),
{
    reveal(PpuView::spec_tick);
    reveal(PpuView::spec_tick_oamscan);
    reveal(PpuView::spec_tick_hblank);
    reveal(PpuView::spec_tick_vblank);
    reveal(PpuView::spec_tick_draw);
    reveal(PpuView::spec_sprite_fetcher);
    reveal(PpuView::spec_bg_fetcher);
    reveal(PpuView::spec_draw_dot);
    assert(forall|s: u8, b: u8| b == 0 || b == 4 ==> ((s & 0xFB) | b) & 0x3 == s & 0x3)
        by (bit_vector);
    assert(forall|s: u8|
        ((s & 0xFC) | 0) & 0x3 == 0 && ((s & 0xFC) | 1) & 0x3 == 1 && ((s & 0xFC) | 2) & 0x3 == 2
            && ((s & 0xFC) | 3) & 0x3 == 3) by (bit_vector);
    if p.spec_mode() == Mode::VBLANK {
        assert(p.vblank_timeline % 456 == p.scanline_timeline);
        if p.vblank_timeline + 2 == 4560 {
            assert(4558int % 456 == 454) by (nonlinear_arith);
            assert(70224int % 70224 == 0) by (nonlinear_arith);
        } else {
            assert((p.vblank_timeline + 2) % 456 == (p.scanline_timeline + 2) % 456)
                by (nonlinear_arith)
                requires
                    p.vblank_timeline % 456 == p.scanline_timeline as int,
            ;
        }
    }
}

/// The MBC1 bank selection rule: writing `b` to the 0x2000 bank register
/// selects bank `b`, except that 0x00 is coerced to 0x01 — so 0x20, 0x40
/// and 0x60 select exactly those banks. A banked read then returns the
/// ROM byte whose offset carries the secondary register in bits 19-20,
/// the selected bank from bit 14, and the address's low 14 bits, wrapped
/// to the image length.
pub proof fn lemma_mbc1_bank_selection(m: MemView, b: u8, addr: u16)
    requires
        0x4000 <= addr < 0x8000,
        m.rom.len() > 0,
    ensures
        ({
            let m2 = m.spec_mbc1_write(0x2000, b);
            let bank: u32 = if b == 0 {
                1
            } else {
                b as u32
            };
            &&& m2.rom_bank_number == (if b == 0 {
                1u8
            } else {
                b
            })
            &&& m2.spec_mbc1_read(addr) == m.rom[(((((m.ram_rom_bank_number as u32) << 19) | (
            bank << 14) | ((addr as u32) % 0x4000)) as int) % (m.rom.len() as int)) as int]
        }),
{
    reveal(MemView::spec_mbc1_read);
    reveal(MemView::spec_mbc1_write);
    let m2 = m.spec_mbc1_write(0x2000, b);
    assert(m2.rom_bank_number as u32 == if b == 0 {
        1u32
    } else {
        b as u32
    });
}

} // verus!
