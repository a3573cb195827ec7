//! The decoder: a pure function from an opcode byte (unprefixed or
//! CB-prefixed) to the ordered micro-op queue of that instruction. The queue
//! length equals the instruction's machine-cycle count, counting the fetch
//! cycle as the first queue entry's cycle; conditional micro-ops truncate
//! the remainder when their predicate fails, giving untaken branches their
//! shorter count. PC-relative constants (CALL and RST return addresses,
//! 16-bit operands of ADD HL) are captured from the register file at decode
//! time, so a queue is pure data.
use crate::micro::Byte;
use crate::micro::MicroInstr;
use crate::micro::steps1;
use crate::micro::steps2;
use crate::micro::steps3;
use crate::micro::steps4;
use crate::micro::steps5;
use crate::micro::steps6;
use crate::registers::Flag;
use crate::registers::Register;
use crate::registers::Registers;
use vstd::prelude::*;

verus! {

/// Whether an opcode is one of the eleven reserved encodings on which the
/// CPU freezes: 0xD3, 0xDB, 0xDD, 0xE3, 0xE4, 0xEB, 0xEC, 0xED, 0xF4,
/// 0xFC, 0xFD.
pub open spec fn spec_is_reserved_opcode(opcode: u8) -> bool {
    opcode == 0xD3 || opcode == 0xDB || opcode == 0xDD || opcode == 0xE3 || opcode == 0xE4
        || opcode == 0xEB || opcode == 0xEC || opcode == 0xED || opcode == 0xF4 || opcode == 0xFC
        || opcode == 0xFD
}

/// The register operand encoded by a 3-bit field of the LD/ALU/CB grids,
/// in the order B, C, D, E, H, L, -, A (index 6 names `(HL)` and is never
/// passed here).
pub open spec fn spec_grid_register(index: u8) -> Register {
    match index {
        0 => Register::B,
        1 => Register::C,
        2 => Register::D,
        3 => Register::E,
        4 => Register::H,
        5 => Register::L,
        _ => Register::A,
    }
}

fn grid_register(index: u8) -> (r: Register)
    ensures
        r == spec_grid_register(index),
{
    match index {
        0 => Register::B,
        1 => Register::C,
        2 => Register::D,
        3 => Register::E,
        4 => Register::H,
        5 => Register::L,
        _ => Register::A,
    }
}

/// The micro-op queue of an opcode in 0x00-0x3F.
#[verifier::opaque]
pub open spec fn spec_decode_q0(opcode: u8, regs: Registers, pc: u16, sp: u16) -> Seq<
    MicroInstr,
> {
    match opcode {
        0x00 => seq![MicroInstr::NOP],
        0x01 => seq![
            MicroInstr::NOP,
            MicroInstr::LDRN(Register::C),
            MicroInstr::LDRN(Register::B),
        ],
        0x02 => seq![MicroInstr::NOP, MicroInstr::LDNNR(regs.spec_bc(), Register::A, false)],
        0x03 => seq![MicroInstr::NOP, MicroInstr::INCBC],
        0x04 => seq![MicroInstr::INC(Register::B)],
        0x05 => seq![MicroInstr::DEC(Register::B)],
        0x06 => seq![MicroInstr::NOP, MicroInstr::LDRN(Register::B)],
        0x07 => seq![MicroInstr::RLCA],
        0x08 => seq![
            MicroInstr::NOP,
            MicroInstr::Read(Byte::LSB),
            MicroInstr::Read(Byte::MSB),
            MicroInstr::LDNNSP(Byte::LSB),
            MicroInstr::LDNNSP(Byte::MSB),
        ],
        0x09 => seq![MicroInstr::NOP, MicroInstr::ADDHLNN(regs.spec_bc())],
        0x0A => seq![MicroInstr::NOP, MicroInstr::LDRNN(Register::A, regs.spec_bc(), false)],
        0x0B => seq![MicroInstr::NOP, MicroInstr::DECBC],
        0x0C => seq![MicroInstr::INC(Register::C)],
        0x0D => seq![MicroInstr::DEC(Register::C)],
        0x0E => seq![MicroInstr::NOP, MicroInstr::LDRN(Register::C)],
        0x0F => seq![MicroInstr::RRCA],
        0x10 => seq![MicroInstr::STOP],
        0x11 => seq![
            MicroInstr::NOP,
            MicroInstr::LDRN(Register::E),
            MicroInstr::LDRN(Register::D),
        ],
        0x12 => seq![MicroInstr::NOP, MicroInstr::LDNNR(regs.spec_de(), Register::A, false)],
        0x13 => seq![MicroInstr::NOP, MicroInstr::INCDE],
        0x14 => seq![MicroInstr::INC(Register::D)],
        0x15 => seq![MicroInstr::DEC(Register::D)],
        0x16 => seq![MicroInstr::NOP, MicroInstr::LDRN(Register::D)],
        0x17 => seq![MicroInstr::RLA],
        0x18 => seq![MicroInstr::Read(Byte::LSB), MicroInstr::NOP, MicroInstr::JR],
        0x19 => seq![MicroInstr::NOP, MicroInstr::ADDHLNN(regs.spec_de())],
        0x1A => seq![MicroInstr::NOP, MicroInstr::LDRNN(Register::A, regs.spec_de(), false)],
        0x1B => seq![MicroInstr::NOP, MicroInstr::DECDE],
        0x1C => seq![MicroInstr::INC(Register::E)],
        0x1D => seq![MicroInstr::DEC(Register::E)],
        0x1E => seq![MicroInstr::NOP, MicroInstr::LDRN(Register::E)],
        0x1F => seq![MicroInstr::RRA],
        0x20 => seq![MicroInstr::Read(Byte::LSB), MicroInstr::Cond(Flag::Z, false), MicroInstr::JR],
        0x21 => seq![
            MicroInstr::NOP,
            MicroInstr::LDRN(Register::L),
            MicroInstr::LDRN(Register::H),
        ],
        0x22 => seq![MicroInstr::NOP, MicroInstr::LDHLINCA],
        0x23 => seq![MicroInstr::NOP, MicroInstr::INCHL],
        0x24 => seq![MicroInstr::INC(Register::H)],
        0x25 => seq![MicroInstr::DEC(Register::H)],
        0x26 => seq![MicroInstr::NOP, MicroInstr::LDRN(Register::H)],
        0x27 => seq![MicroInstr::DAA],
        0x28 => seq![MicroInstr::Read(Byte::LSB), MicroInstr::Cond(Flag::Z, true), MicroInstr::JR],
        0x29 => seq![MicroInstr::NOP, MicroInstr::ADDHLNN(regs.spec_hl())],
        0x2A => seq![MicroInstr::NOP, MicroInstr::LDAHLINC],
        0x2B => seq![MicroInstr::NOP, MicroInstr::DECHL],
        0x2C => seq![MicroInstr::INC(Register::L)],
        0x2D => seq![MicroInstr::DEC(Register::L)],
        0x2E => seq![MicroInstr::NOP, MicroInstr::LDRN(Register::L)],
        0x2F => seq![MicroInstr::CPL],
        0x30 => seq![MicroInstr::Read(Byte::LSB), MicroInstr::Cond(Flag::C, false), MicroInstr::JR],
        0x31 => seq![MicroInstr::Read(Byte::LSB), MicroInstr::Read(Byte::MSB), MicroInstr::LDSPNN],
        0x32 => seq![MicroInstr::NOP, MicroInstr::LDHLDECA],
        0x33 => seq![MicroInstr::NOP, MicroInstr::INCSP],
        0x34 => seq![MicroInstr::NOP, MicroInstr::NOP, MicroInstr::INCHLADDR],
        0x35 => seq![MicroInstr::NOP, MicroInstr::NOP, MicroInstr::DECNN(regs.spec_hl())],
        0x36 => seq![MicroInstr::NOP, MicroInstr::Read(Byte::LSB), MicroInstr::LDHLN],
        0x37 => seq![MicroInstr::SCF],
        0x38 => seq![MicroInstr::Read(Byte::LSB), MicroInstr::Cond(Flag::C, true), MicroInstr::JR],
        0x39 => seq![MicroInstr::NOP, MicroInstr::ADDHLNN(sp)],
        0x3A => seq![MicroInstr::NOP, MicroInstr::LDAHLDEC],
        0x3B => seq![MicroInstr::NOP, MicroInstr::DECSP],
        0x3C => seq![MicroInstr::INC(Register::A)],
        0x3D => seq![MicroInstr::DEC(Register::A)],
        0x3E => seq![MicroInstr::NOP, MicroInstr::LDRN(Register::A)],
        _ => seq![MicroInstr::CCF],
    }
}

/// The micro-op queue of an opcode in 0x40-0x7F: the LD r,r' grid with
/// `(HL)` source and destination rows and HALT at 0x76.
#[verifier::opaque]
pub open spec fn spec_decode_q1(opcode: u8, regs: Registers) -> Seq<MicroInstr> {
    let dst = (opcode >> 3) & 0x7;
    let src = opcode & 0x7;
    if opcode == 0x76 {
        seq![MicroInstr::HALT]
    } else if src == 6 {
        seq![MicroInstr::NOP, MicroInstr::LDRNN(spec_grid_register(dst), regs.spec_hl(), false)]
    } else if dst == 6 {
        seq![MicroInstr::NOP, MicroInstr::LDNNR(regs.spec_hl(), spec_grid_register(src), false)]
    } else {
        seq![MicroInstr::LDRR(spec_grid_register(dst), spec_grid_register(src))]
    }
}

/// The micro-op queue of an opcode in 0x80-0xBF: the eight-operation ALU
/// grid ADD/ADC/SUB/SBC/AND/XOR/OR/CP over registers and `(HL)`.
#[verifier::opaque]
pub open spec fn spec_decode_q2(opcode: u8) -> Seq<MicroInstr> {
    let op = (opcode >> 3) & 0x7;
    let src = opcode & 0x7;
    if src == 6 {
        match op {
            0 => seq![MicroInstr::NOP, MicroInstr::ADDHL],
            1 => seq![MicroInstr::NOP, MicroInstr::ADCHL],
            2 => seq![MicroInstr::NOP, MicroInstr::SUBHL],
            3 => seq![MicroInstr::NOP, MicroInstr::SBCHL],
            4 => seq![MicroInstr::NOP, MicroInstr::ANDHL],
            5 => seq![MicroInstr::NOP, MicroInstr::XORHL],
            6 => seq![MicroInstr::NOP, MicroInstr::ORHL],
            _ => seq![MicroInstr::NOP, MicroInstr::CPHL],
        }
    } else {
        let r = spec_grid_register(src);
        match op {
            0 => seq![MicroInstr::ADD(r)],
            1 => seq![MicroInstr::ADC(r)],
            2 => seq![MicroInstr::SUB(r)],
            3 => seq![MicroInstr::SBC(r)],
            4 => seq![MicroInstr::AND(r)],
            5 => seq![MicroInstr::XOR(r)],
            6 => seq![MicroInstr::OR(r)],
            _ => seq![MicroInstr::CP(r)],
        }
    }
}

/// The push micro-ops of the return address `addr`: high byte first.
pub open spec fn spec_push_pair(addr: u16) -> (Seq<MicroInstr>, Seq<MicroInstr>) {
    (
        seq![MicroInstr::PUSH((addr >> 8) as u8)],
        seq![MicroInstr::PUSH((addr & 0xFF) as u8)],
    )
}

/// The micro-op queue of an opcode in 0xC0-0xFF (reserved opcodes
/// excluded). CALL variants capture the post-operand PC, RST variants the
/// post-fetch PC, as push literals.
#[verifier::opaque]
pub open spec fn spec_decode_q3(opcode: u8, regs: Registers, pc: u16, sp: u16) -> Seq<
    MicroInstr,
> {
    let ret = pc.wrapping_add(2);
    let push_hi = MicroInstr::PUSH((ret >> 8) as u8);
    let push_lo = MicroInstr::PUSH((ret & 0xFF) as u8);
    let rst_hi = MicroInstr::PUSH((pc >> 8) as u8);
    let rst_lo = MicroInstr::PUSH((pc & 0xFF) as u8);
    match opcode {
        0xC0 => seq![
            MicroInstr::NOP,
            MicroInstr::Cond(Flag::Z, false),
            MicroInstr::POPPC(Byte::LSB),
            MicroInstr::POPPC(Byte::MSB),
            MicroInstr::JP,
        ],
        0xC1 => seq![MicroInstr::NOP, MicroInstr::POPR(Register::C), MicroInstr::POPR(Register::B)],
        0xC2 => seq![
            MicroInstr::Read(Byte::LSB),
            MicroInstr::Read(Byte::MSB),
            MicroInstr::Cond(Flag::Z, false),
            MicroInstr::JP,
        ],
        0xC3 => seq![
            MicroInstr::Read(Byte::LSB),
            MicroInstr::Read(Byte::MSB),
            MicroInstr::NOP,
            MicroInstr::JP,
        ],
        0xC4 => seq![
            MicroInstr::Read(Byte::LSB),
            MicroInstr::Read(Byte::MSB),
            MicroInstr::Cond(Flag::Z, false),
            push_hi,
            push_lo,
            MicroInstr::JP,
        ],
        0xC5 => seq![
            MicroInstr::NOP,
            MicroInstr::NOP,
            MicroInstr::PUSH(regs.b),
            MicroInstr::PUSH(regs.c),
        ],
        0xC6 => seq![MicroInstr::Read(Byte::LSB), MicroInstr::ADDN],
        0xC7 => seq![MicroInstr::NOP, rst_hi, rst_lo, MicroInstr::RST(0x0000)],
        0xC8 => seq![
            MicroInstr::NOP,
            MicroInstr::Cond(Flag::Z, true),
            MicroInstr::POPPC(Byte::LSB),
            MicroInstr::POPPC(Byte::MSB),
            MicroInstr::JP,
        ],
        0xC9 => seq![
            MicroInstr::NOP,
            MicroInstr::POPPC(Byte::LSB),
            MicroInstr::POPPC(Byte::MSB),
            MicroInstr::JP,
        ],
        0xCA => seq![
            MicroInstr::Read(Byte::LSB),
            MicroInstr::Read(Byte::MSB),
            MicroInstr::Cond(Flag::Z, true),
            MicroInstr::JP,
        ],
        0xCB => Seq::empty(),
        0xCC => seq![
            MicroInstr::Read(Byte::LSB),
            MicroInstr::Read(Byte::MSB),
            MicroInstr::Cond(Flag::Z, true),
            push_hi,
            push_lo,
            MicroInstr::JP,
        ],
        0xCD => seq![
            MicroInstr::NOP,
            MicroInstr::Read(Byte::LSB),
            MicroInstr::Read(Byte::MSB),
            push_hi,
            push_lo,
            MicroInstr::JP,
        ],
        0xCE => seq![MicroInstr::Read(Byte::LSB), MicroInstr::ADCN],
        0xCF => seq![MicroInstr::NOP, rst_hi, rst_lo, MicroInstr::RST(0x0008)],
        0xD0 => seq![
            MicroInstr::NOP,
            MicroInstr::Cond(Flag::C, false),
            MicroInstr::POPPC(Byte::LSB),
            MicroInstr::POPPC(Byte::MSB),
            MicroInstr::JP,
        ],
        0xD1 => seq![MicroInstr::NOP, MicroInstr::POPR(Register::E), MicroInstr::POPR(Register::D)],
        0xD2 => seq![
            MicroInstr::Read(Byte::LSB),
            MicroInstr::Read(Byte::MSB),
            MicroInstr::Cond(Flag::C, false),
            MicroInstr::JP,
        ],
        0xD4 => seq![
            MicroInstr::Read(Byte::LSB),
            MicroInstr::Read(Byte::MSB),
            MicroInstr::Cond(Flag::C, false),
            push_hi,
            push_lo,
            MicroInstr::JP,
        ],
        0xD5 => seq![
            MicroInstr::NOP,
            MicroInstr::NOP,
            MicroInstr::PUSH(regs.d),
            MicroInstr::PUSH(regs.e),
        ],
        0xD6 => seq![MicroInstr::Read(Byte::LSB), MicroInstr::SUBN],
        0xD7 => seq![MicroInstr::NOP, rst_hi, rst_lo, MicroInstr::RST(0x0010)],
        0xD8 => seq![
            MicroInstr::NOP,
            MicroInstr::Cond(Flag::C, true),
            MicroInstr::POPPC(Byte::LSB),
            MicroInstr::POPPC(Byte::MSB),
            MicroInstr::JP,
        ],
        0xD9 => seq![
            MicroInstr::NOP,
            MicroInstr::POPPC(Byte::LSB),
            MicroInstr::POPPC(Byte::MSB),
            MicroInstr::RETI,
        ],
        0xDA => seq![
            MicroInstr::Read(Byte::LSB),
            MicroInstr::Read(Byte::MSB),
            MicroInstr::Cond(Flag::C, true),
            MicroInstr::JP,
        ],
        0xDC => seq![
            MicroInstr::Read(Byte::LSB),
            MicroInstr::Read(Byte::MSB),
            MicroInstr::Cond(Flag::C, true),
            push_hi,
            push_lo,
            MicroInstr::JP,
        ],
        0xDE => seq![MicroInstr::Read(Byte::LSB), MicroInstr::SBCN],
        0xDF => seq![MicroInstr::NOP, rst_hi, rst_lo, MicroInstr::RST(0x0018)],
        0xE0 => seq![
            MicroInstr::NOP,
            MicroInstr::Read(Byte::LSB),
            MicroInstr::LDNNR(0xFF00, Register::A, true),
        ],
        0xE1 => seq![MicroInstr::NOP, MicroInstr::POPR(Register::L), MicroInstr::POPR(Register::H)],
        0xE2 => seq![
            MicroInstr::NOP,
            MicroInstr::LDNNR((0xFF00 + regs.c as u16) as u16, Register::A, false),
        ],
        0xE5 => seq![
            MicroInstr::NOP,
            MicroInstr::NOP,
            MicroInstr::PUSH(regs.h),
            MicroInstr::PUSH(regs.l),
        ],
        0xE6 => seq![MicroInstr::Read(Byte::LSB), MicroInstr::ANDN],
        0xE7 => seq![MicroInstr::NOP, rst_hi, rst_lo, MicroInstr::RST(0x0020)],
        0xE8 => seq![
            MicroInstr::NOP,
            MicroInstr::Read(Byte::LSB),
            MicroInstr::NOP,
            MicroInstr::ADDSPN,
        ],
        0xE9 => seq![MicroInstr::JPHL],
        0xEA => seq![
            MicroInstr::NOP,
            MicroInstr::Read(Byte::LSB),
            MicroInstr::Read(Byte::MSB),
            MicroInstr::LDNNR(0, Register::A, false),
        ],
        0xEE => seq![MicroInstr::Read(Byte::LSB), MicroInstr::XORN],
        0xEF => seq![MicroInstr::NOP, rst_hi, rst_lo, MicroInstr::RST(0x0028)],
        0xF0 => seq![
            MicroInstr::NOP,
            MicroInstr::Read(Byte::LSB),
            MicroInstr::LDRNN(Register::A, 0xFF00, true),
        ],
        0xF1 => seq![MicroInstr::NOP, MicroInstr::POPR(Register::F), MicroInstr::POPR(Register::A)],
        0xF2 => seq![
            MicroInstr::NOP,
            MicroInstr::LDRNN(Register::A, (0xFF00 + regs.c as u16) as u16, false),
        ],
        0xF3 => seq![MicroInstr::DI],
        0xF5 => seq![
            MicroInstr::NOP,
            MicroInstr::NOP,
            MicroInstr::PUSH(regs.a),
            MicroInstr::PUSH(regs.f),
        ],
        0xF6 => seq![MicroInstr::Read(Byte::LSB), MicroInstr::ORN],
        0xF7 => seq![MicroInstr::NOP, rst_hi, rst_lo, MicroInstr::RST(0x0030)],
        0xF8 => seq![MicroInstr::NOP, MicroInstr::Read(Byte::LSB), MicroInstr::LDHLSPN],
        0xF9 => seq![MicroInstr::NOP, MicroInstr::LDSPHL],
        0xFA => seq![
            MicroInstr::NOP,
            MicroInstr::Read(Byte::LSB),
            MicroInstr::Read(Byte::MSB),
            MicroInstr::LDRNN(Register::A, 0, false),
        ],
        0xFB => seq![MicroInstr::EI],
        0xFE => seq![MicroInstr::Read(Byte::LSB), MicroInstr::CPN],
        _ => seq![MicroInstr::NOP, rst_hi, rst_lo, MicroInstr::RST(0x0038)],
    }
}

/// The micro-op queue of an unprefixed opcode, or nothing for the eleven
/// reserved encodings.
pub open spec fn spec_decode(opcode: u8, regs: Registers, pc: u16, sp: u16) -> Option<
    Seq<MicroInstr>,
> {
    if spec_is_reserved_opcode(opcode) {
        None
    } else if opcode < 0x40 {
        Some(spec_decode_q0(opcode, regs, pc, sp))
    } else if opcode < 0x80 {
        Some(spec_decode_q1(opcode, regs))
    } else if opcode < 0xC0 {
        Some(spec_decode_q2(opcode))
    } else {
        Some(spec_decode_q3(opcode, regs, pc, sp))
    }
}

/// The micro-op queue of a CB-prefixed opcode: rotates, shifts, SWAP, BIT,
/// RES and SET over the register grid and `(HL)`. Every CB opcode decodes.
#[verifier::opaque]
pub open spec fn spec_decode_prefix(opcode: u8) -> Seq<MicroInstr> {
    let group = opcode >> 6;
    let n = (opcode >> 3) & 0x7;
    let src = opcode & 0x7;
    if group == 0 {
        if src == 6 {
            match n {
                0 => seq![MicroInstr::NOP, MicroInstr::NOP, MicroInstr::RLCHL],
                1 => seq![MicroInstr::NOP, MicroInstr::NOP, MicroInstr::RRCHL],
                2 => seq![MicroInstr::NOP, MicroInstr::NOP, MicroInstr::RLHL],
                3 => seq![MicroInstr::NOP, MicroInstr::NOP, MicroInstr::RRHL],
                4 => seq![MicroInstr::NOP, MicroInstr::NOP, MicroInstr::SLAHL],
                5 => seq![MicroInstr::NOP, MicroInstr::NOP, MicroInstr::SRAHL],
                6 => seq![MicroInstr::NOP, MicroInstr::NOP, MicroInstr::SWAPHL],
                _ => seq![MicroInstr::NOP, MicroInstr::NOP, MicroInstr::SRLHL],
            }
        } else {
            let r = spec_grid_register(src);
            match n {
                0 => seq![MicroInstr::RLCR(r)],
                1 => seq![MicroInstr::RRCR(r)],
                2 => seq![MicroInstr::RLR(r)],
                3 => seq![MicroInstr::RRR(r)],
                4 => seq![MicroInstr::SLAR(r)],
                5 => seq![MicroInstr::SRAR(r)],
                6 => seq![MicroInstr::SWAP(r)],
                _ => seq![MicroInstr::SRLR(r)],
            }
        }
    } else if group == 1 {
        if src == 6 {
            seq![MicroInstr::NOP, MicroInstr::BITHL(n)]
        } else {
            seq![MicroInstr::BIT(n, spec_grid_register(src))]
        }
    } else if group == 2 {
        if src == 6 {
            seq![MicroInstr::NOP, MicroInstr::NOP, MicroInstr::RESHL(n)]
        } else {
            seq![MicroInstr::RES(n, spec_grid_register(src))]
        }
    } else {
        if src == 6 {
            seq![MicroInstr::NOP, MicroInstr::NOP, MicroInstr::SETHL(n)]
        } else {
            seq![MicroInstr::SET(n, spec_grid_register(src))]
        }
    }
}

fn decode_q0(opcode: u8, regs: &Registers, pc: u16, sp: u16) -> (r: Vec<MicroInstr>)
    requires
        opcode < 0x40,
    ensures
        r@ == spec_decode_q0(opcode, *regs, pc, sp),
{
    proof {
        reveal(spec_decode_q0);
    }
    match opcode {
        0x00 => steps1(MicroInstr::NOP),
        0x01 => steps3(
            MicroInstr::NOP,
            MicroInstr::LDRN(Register::C),
            MicroInstr::LDRN(Register::B),
        ),
        0x02 => steps2(MicroInstr::NOP, MicroInstr::LDNNR(regs.get_bc(), Register::A, false)),
        0x03 => steps2(MicroInstr::NOP, MicroInstr::INCBC),
        0x04 => steps1(MicroInstr::INC(Register::B)),
        0x05 => steps1(MicroInstr::DEC(Register::B)),
        0x06 => steps2(MicroInstr::NOP, MicroInstr::LDRN(Register::B)),
        0x07 => steps1(MicroInstr::RLCA),
        0x08 => steps5(
            MicroInstr::NOP,
            MicroInstr::Read(Byte::LSB),
            MicroInstr::Read(Byte::MSB),
            MicroInstr::LDNNSP(Byte::LSB),
            MicroInstr::LDNNSP(Byte::MSB),
        ),
        0x09 => steps2(MicroInstr::NOP, MicroInstr::ADDHLNN(regs.get_bc())),
        0x0A => steps2(MicroInstr::NOP, MicroInstr::LDRNN(Register::A, regs.get_bc(), false)),
        0x0B => steps2(MicroInstr::NOP, MicroInstr::DECBC),
        0x0C => steps1(MicroInstr::INC(Register::C)),
        0x0D => steps1(MicroInstr::DEC(Register::C)),
        0x0E => steps2(MicroInstr::NOP, MicroInstr::LDRN(Register::C)),
        0x0F => steps1(MicroInstr::RRCA),
        0x10 => steps1(MicroInstr::STOP),
        0x11 => steps3(
            MicroInstr::NOP,
            MicroInstr::LDRN(Register::E),
            MicroInstr::LDRN(Register::D),
        ),
        0x12 => steps2(MicroInstr::NOP, MicroInstr::LDNNR(regs.get_de(), Register::A, false)),
        0x13 => steps2(MicroInstr::NOP, MicroInstr::INCDE),
        0x14 => steps1(MicroInstr::INC(Register::D)),
        0x15 => steps1(MicroInstr::DEC(Register::D)),
        0x16 => steps2(MicroInstr::NOP, MicroInstr::LDRN(Register::D)),
        0x17 => steps1(MicroInstr::RLA),
        0x18 => steps3(MicroInstr::Read(Byte::LSB), MicroInstr::NOP, MicroInstr::JR),
        0x19 => steps2(MicroInstr::NOP, MicroInstr::ADDHLNN(regs.get_de())),
        0x1A => steps2(MicroInstr::NOP, MicroInstr::LDRNN(Register::A, regs.get_de(), false)),
        0x1B => steps2(MicroInstr::NOP, MicroInstr::DECDE),
        0x1C => steps1(MicroInstr::INC(Register::E)),
        0x1D => steps1(MicroInstr::DEC(Register::E)),
        0x1E => steps2(MicroInstr::NOP, MicroInstr::LDRN(Register::E)),
        0x1F => steps1(MicroInstr::RRA),
        0x20 => steps3(
            MicroInstr::Read(Byte::LSB),
            MicroInstr::Cond(Flag::Z, false),
            MicroInstr::JR,
        ),
        0x21 => steps3(
            MicroInstr::NOP,
            MicroInstr::LDRN(Register::L),
            MicroInstr::LDRN(Register::H),
        ),
        0x22 => steps2(MicroInstr::NOP, MicroInstr::LDHLINCA),
        0x23 => steps2(MicroInstr::NOP, MicroInstr::INCHL),
        0x24 => steps1(MicroInstr::INC(Register::H)),
        0x25 => steps1(MicroInstr::DEC(Register::H)),
        0x26 => steps2(MicroInstr::NOP, MicroInstr::LDRN(Register::H)),
        0x27 => steps1(MicroInstr::DAA),
        0x28 => steps3(
            MicroInstr::Read(Byte::LSB),
            MicroInstr::Cond(Flag::Z, true),
            MicroInstr::JR,
        ),
        0x29 => steps2(MicroInstr::NOP, MicroInstr::ADDHLNN(regs.get_hl())),
        0x2A => steps2(MicroInstr::NOP, MicroInstr::LDAHLINC),
        0x2B => steps2(MicroInstr::NOP, MicroInstr::DECHL),
        0x2C => steps1(MicroInstr::INC(Register::L)),
        0x2D => steps1(MicroInstr::DEC(Register::L)),
        0x2E => steps2(MicroInstr::NOP, MicroInstr::LDRN(Register::L)),
        0x2F => steps1(MicroInstr::CPL),
        0x30 => steps3(
            MicroInstr::Read(Byte::LSB),
            MicroInstr::Cond(Flag::C, false),
            MicroInstr::JR,
        ),
        0x31 => steps3(MicroInstr::Read(Byte::LSB), MicroInstr::Read(Byte::MSB), MicroInstr::LDSPNN),
        0x32 => steps2(MicroInstr::NOP, MicroInstr::LDHLDECA),
        0x33 => steps2(MicroInstr::NOP, MicroInstr::INCSP),
        0x34 => steps3(MicroInstr::NOP, MicroInstr::NOP, MicroInstr::INCHLADDR),
        0x35 => steps3(MicroInstr::NOP, MicroInstr::NOP, MicroInstr::DECNN(regs.get_hl())),
        0x36 => steps3(MicroInstr::NOP, MicroInstr::Read(Byte::LSB), MicroInstr::LDHLN),
        0x37 => steps1(MicroInstr::SCF),
        0x38 => steps3(
            MicroInstr::Read(Byte::LSB),
            MicroInstr::Cond(Flag::C, true),
            MicroInstr::JR,
        ),
        0x39 => steps2(MicroInstr::NOP, MicroInstr::ADDHLNN(sp)),
        0x3A => steps2(MicroInstr::NOP, MicroInstr::LDAHLDEC),
        0x3B => steps2(MicroInstr::NOP, MicroInstr::DECSP),
        0x3C => steps1(MicroInstr::INC(Register::A)),
        0x3D => steps1(MicroInstr::DEC(Register::A)),
        0x3E => steps2(MicroInstr::NOP, MicroInstr::LDRN(Register::A)),
        _ => steps1(MicroInstr::CCF),
    }
}

fn decode_q1(opcode: u8, regs: &Registers) -> (r: Vec<MicroInstr>)
    requires
        0x40 <= opcode < 0x80,
    ensures
        r@ == spec_decode_q1(opcode, *regs),
{
    proof {
        reveal(spec_decode_q1);
    }
    let dst: u8 = (opcode >> 3) & 0x7;
    let src: u8 = opcode & 0x7;
    if opcode == 0x76 {
        steps1(MicroInstr::HALT)
    } else if src == 6 {
        steps2(MicroInstr::NOP, MicroInstr::LDRNN(grid_register(dst), regs.get_hl(), false))
    } else if dst == 6 {
        steps2(MicroInstr::NOP, MicroInstr::LDNNR(regs.get_hl(), grid_register(src), false))
    } else {
        steps1(MicroInstr::LDRR(grid_register(dst), grid_register(src)))
    }
}

fn decode_q2(opcode: u8) -> (r: Vec<MicroInstr>)
    requires
        0x80 <= opcode < 0xC0,
    ensures
        r@ == spec_decode_q2(opcode),
{
    proof {
        reveal(spec_decode_q2);
    }
    let op: u8 = (opcode >> 3) & 0x7;
    let src: u8 = opcode & 0x7;
    if src == 6 {
        let m = match op {
            0 => MicroInstr::ADDHL,
            1 => MicroInstr::ADCHL,
            2 => MicroInstr::SUBHL,
            3 => MicroInstr::SBCHL,
            4 => MicroInstr::ANDHL,
            5 => MicroInstr::XORHL,
            6 => MicroInstr::ORHL,
            _ => MicroInstr::CPHL,
        };
        steps2(MicroInstr::NOP, m)
    } else {
        let reg = grid_register(src);
        let m = match op {
            0 => MicroInstr::ADD(reg),
            1 => MicroInstr::ADC(reg),
            2 => MicroInstr::SUB(reg),
            3 => MicroInstr::SBC(reg),
            4 => MicroInstr::AND(reg),
            5 => MicroInstr::XOR(reg),
            6 => MicroInstr::OR(reg),
            _ => MicroInstr::CP(reg),
        };
        steps1(m)
    }
}

fn decode_q3(opcode: u8, regs: &Registers, pc: u16, sp: u16) -> (r: Vec<MicroInstr>)
    requires
        0xC0 <= opcode,
        !spec_is_reserved_opcode(opcode),
    ensures
        r@ == spec_decode_q3(opcode, *regs, pc, sp),
{
    proof {
        reveal(spec_decode_q3);
    }
    let ret: u16 = pc.wrapping_add(2);
    let push_hi = MicroInstr::PUSH((ret >> 8) as u8);
    let push_lo = MicroInstr::PUSH((ret & 0xFF) as u8);
    let rst_hi = MicroInstr::PUSH((pc >> 8) as u8);
    let rst_lo = MicroInstr::PUSH((pc & 0xFF) as u8);
    match opcode {
        0xC0 => steps5(
            MicroInstr::NOP,
            MicroInstr::Cond(Flag::Z, false),
            MicroInstr::POPPC(Byte::LSB),
            MicroInstr::POPPC(Byte::MSB),
            MicroInstr::JP,
        ),
        0xC1 => steps3(MicroInstr::NOP, MicroInstr::POPR(Register::C), MicroInstr::POPR(Register::B)),
        0xC2 => steps4(
            MicroInstr::Read(Byte::LSB),
            MicroInstr::Read(Byte::MSB),
            MicroInstr::Cond(Flag::Z, false),
            MicroInstr::JP,
        ),
        0xC3 => steps4(
            MicroInstr::Read(Byte::LSB),
            MicroInstr::Read(Byte::MSB),
            MicroInstr::NOP,
            MicroInstr::JP,
        ),
        0xC4 => steps6(
            MicroInstr::Read(Byte::LSB),
            MicroInstr::Read(Byte::MSB),
            MicroInstr::Cond(Flag::Z, false),
            push_hi,
            push_lo,
            MicroInstr::JP,
        ),
        0xC5 => steps4(
            MicroInstr::NOP,
            MicroInstr::NOP,
            MicroInstr::PUSH(regs.b),
            MicroInstr::PUSH(regs.c),
        ),
        0xC6 => steps2(MicroInstr::Read(Byte::LSB), MicroInstr::ADDN),
        0xC7 => steps4(MicroInstr::NOP, rst_hi, rst_lo, MicroInstr::RST(0x0000)),
        0xC8 => steps5(
            MicroInstr::NOP,
            MicroInstr::Cond(Flag::Z, true),
            MicroInstr::POPPC(Byte::LSB),
            MicroInstr::POPPC(Byte::MSB),
            MicroInstr::JP,
        ),
        0xC9 => steps4(
            MicroInstr::NOP,
            MicroInstr::POPPC(Byte::LSB),
            MicroInstr::POPPC(Byte::MSB),
            MicroInstr::JP,
        ),
        0xCA => steps4(
            MicroInstr::Read(Byte::LSB),
            MicroInstr::Read(Byte::MSB),
            MicroInstr::Cond(Flag::Z, true),
            MicroInstr::JP,
        ),
        0xCB => Vec::new(),
        0xCC => steps6(
            MicroInstr::Read(Byte::LSB),
            MicroInstr::Read(Byte::MSB),
            MicroInstr::Cond(Flag::Z, true),
            push_hi,
            push_lo,
            MicroInstr::JP,
        ),
        0xCD => steps6(
            MicroInstr::NOP,
            MicroInstr::Read(Byte::LSB),
            MicroInstr::Read(Byte::MSB),
            push_hi,
            push_lo,
            MicroInstr::JP,
        ),
        0xCE => steps2(MicroInstr::Read(Byte::LSB), MicroInstr::ADCN),
        0xCF => steps4(MicroInstr::NOP, rst_hi, rst_lo, MicroInstr::RST(0x0008)),
        0xD0 => steps5(
            MicroInstr::NOP,
            MicroInstr::Cond(Flag::C, false),
            MicroInstr::POPPC(Byte::LSB),
            MicroInstr::POPPC(Byte::MSB),
            MicroInstr::JP,
        ),
        0xD1 => steps3(MicroInstr::NOP, MicroInstr::POPR(Register::E), MicroInstr::POPR(Register::D)),
        0xD2 => steps4(
            MicroInstr::Read(Byte::LSB),
            MicroInstr::Read(Byte::MSB),
            MicroInstr::Cond(Flag::C, false),
            MicroInstr::JP,
        ),
        0xD4 => steps6(
            MicroInstr::Read(Byte::LSB),
            MicroInstr::Read(Byte::MSB),
            MicroInstr::Cond(Flag::C, false),
            push_hi,
            push_lo,
            MicroInstr::JP,
        ),
        0xD5 => steps4(
            MicroInstr::NOP,
            MicroInstr::NOP,
            MicroInstr::PUSH(regs.d),
            MicroInstr::PUSH(regs.e),
        ),
        0xD6 => steps2(MicroInstr::Read(Byte::LSB), MicroInstr::SUBN),
        0xD7 => steps4(MicroInstr::NOP, rst_hi, rst_lo, MicroInstr::RST(0x0010)),
        0xD8 => steps5(
            MicroInstr::NOP,
            MicroInstr::Cond(Flag::C, true),
            MicroInstr::POPPC(Byte::LSB),
            MicroInstr::POPPC(Byte::MSB),
            MicroInstr::JP,
        ),
        0xD9 => steps4(
            MicroInstr::NOP,
            MicroInstr::POPPC(Byte::LSB),
            MicroInstr::POPPC(Byte::MSB),
            MicroInstr::RETI,
        ),
        0xDA => steps4(
            MicroInstr::Read(Byte::LSB),
            MicroInstr::Read(Byte::MSB),
            MicroInstr::Cond(Flag::C, true),
            MicroInstr::JP,
        ),
        0xDC => steps6(
            MicroInstr::Read(Byte::LSB),
            MicroInstr::Read(Byte::MSB),
            MicroInstr::Cond(Flag::C, true),
            push_hi,
            push_lo,
            MicroInstr::JP,
        ),
        0xDE => steps2(MicroInstr::Read(Byte::LSB), MicroInstr::SBCN),
        0xDF => steps4(MicroInstr::NOP, rst_hi, rst_lo, MicroInstr::RST(0x0018)),
        0xE0 => steps3(
            MicroInstr::NOP,
            MicroInstr::Read(Byte::LSB),
            MicroInstr::LDNNR(0xFF00, Register::A, true),
        ),
        0xE1 => steps3(MicroInstr::NOP, MicroInstr::POPR(Register::L), MicroInstr::POPR(Register::H)),
        0xE2 => steps2(
            MicroInstr::NOP,
            MicroInstr::LDNNR(0xFF00 + regs.c as u16, Register::A, false),
        ),
        0xE5 => steps4(
            MicroInstr::NOP,
            MicroInstr::NOP,
            MicroInstr::PUSH(regs.h),
            MicroInstr::PUSH(regs.l),
        ),
        0xE6 => steps2(MicroInstr::Read(Byte::LSB), MicroInstr::ANDN),
        0xE7 => steps4(MicroInstr::NOP, rst_hi, rst_lo, MicroInstr::RST(0x0020)),
        0xE8 => steps4(
            MicroInstr::NOP,
            MicroInstr::Read(Byte::LSB),
            MicroInstr::NOP,
            MicroInstr::ADDSPN,
        ),
        0xE9 => steps1(MicroInstr::JPHL),
        0xEA => steps4(
            MicroInstr::NOP,
            MicroInstr::Read(Byte::LSB),
            MicroInstr::Read(Byte::MSB),
            MicroInstr::LDNNR(0, Register::A, false),
        ),
        0xEE => steps2(MicroInstr::Read(Byte::LSB), MicroInstr::XORN),
        0xEF => steps4(MicroInstr::NOP, rst_hi, rst_lo, MicroInstr::RST(0x0028)),
        0xF0 => steps3(
            MicroInstr::NOP,
            MicroInstr::Read(Byte::LSB),
            MicroInstr::LDRNN(Register::A, 0xFF00, true),
        ),
        0xF1 => steps3(MicroInstr::NOP, MicroInstr::POPR(Register::F), MicroInstr::POPR(Register::A)),
        0xF2 => steps2(
            MicroInstr::NOP,
            MicroInstr::LDRNN(Register::A, 0xFF00 + regs.c as u16, false),
        ),
        0xF3 => steps1(MicroInstr::DI),
        0xF5 => steps4(
            MicroInstr::NOP,
            MicroInstr::NOP,
            MicroInstr::PUSH(regs.a),
            MicroInstr::PUSH(regs.f),
        ),
        0xF6 => steps2(MicroInstr::Read(Byte::LSB), MicroInstr::ORN),
        0xF7 => steps4(MicroInstr::NOP, rst_hi, rst_lo, MicroInstr::RST(0x0030)),
        0xF8 => steps3(MicroInstr::NOP, MicroInstr::Read(Byte::LSB), MicroInstr::LDHLSPN),
        0xF9 => steps2(MicroInstr::NOP, MicroInstr::LDSPHL),
        0xFA => steps4(
            MicroInstr::NOP,
            MicroInstr::Read(Byte::LSB),
            MicroInstr::Read(Byte::MSB),
            MicroInstr::LDRNN(Register::A, 0, false),
        ),
        0xFB => steps1(MicroInstr::EI),
        0xFE => steps2(MicroInstr::Read(Byte::LSB), MicroInstr::CPN),
        _ => steps4(MicroInstr::NOP, rst_hi, rst_lo, MicroInstr::RST(0x0038)),
    }
}

/// Decode an unprefixed opcode against the register file, PC and SP it was
/// fetched with. Returns the micro-op queue, or `None` exactly for the
/// eleven reserved opcodes, on which the CPU freezes.
pub fn decode(opcode: u8, regs: &Registers, pc: u16, sp: u16) -> (r: Option<Vec<MicroInstr>>)
    ensures
        match r {
            Some(v) => spec_decode(opcode, *regs, pc, sp) == Some(v@),
            None => spec_decode(opcode, *regs, pc, sp) is None,
        },
        r is None <==> spec_is_reserved_opcode(opcode),
{
    if opcode == 0xD3 || opcode == 0xDB || opcode == 0xDD || opcode == 0xE3 || opcode == 0xE4
        || opcode == 0xEB || opcode == 0xEC || opcode == 0xED || opcode == 0xF4 || opcode == 0xFC
        || opcode == 0xFD {
        None
    } else if opcode < 0x40 {
        Some(decode_q0(opcode, regs, pc, sp))
    } else if opcode < 0x80 {
        Some(decode_q1(opcode, regs))
    } else if opcode < 0xC0 {
        Some(decode_q2(opcode))
    } else {
        Some(decode_q3(opcode, regs, pc, sp))
    }
}

/// Decode a CB-prefixed opcode. Every CB opcode is valid.
pub fn decode_prefix(opcode: u8) -> (r: Vec<MicroInstr>)
    ensures
        r@ == spec_decode_prefix(opcode),
{
    proof {
        reveal(spec_decode_prefix);
    }
    let group: u8 = opcode >> 6;
    let n: u8 = (opcode >> 3) & 0x7;
    let src: u8 = opcode & 0x7;
    if group == 0 {
        if src == 6 {
            let m = match n {
                0 => MicroInstr::RLCHL,
                1 => MicroInstr::RRCHL,
                2 => MicroInstr::RLHL,
                3 => MicroInstr::RRHL,
                4 => MicroInstr::SLAHL,
                5 => MicroInstr::SRAHL,
                6 => MicroInstr::SWAPHL,
                _ => MicroInstr::SRLHL,
            };
            steps3(MicroInstr::NOP, MicroInstr::NOP, m)
        } else {
            let reg = grid_register(src);
            let m = match n {
                0 => MicroInstr::RLCR(reg),
                1 => MicroInstr::RRCR(reg),
                2 => MicroInstr::RLR(reg),
                3 => MicroInstr::RRR(reg),
                4 => MicroInstr::SLAR(reg),
                5 => MicroInstr::SRAR(reg),
                6 => MicroInstr::SWAP(reg),
                _ => MicroInstr::SRLR(reg),
            };
            steps1(m)
        }
    } else if group == 1 {
        if src == 6 {
            steps2(MicroInstr::NOP, MicroInstr::BITHL(n))
        } else {
            steps1(MicroInstr::BIT(n, grid_register(src)))
        }
    } else if group == 2 {
        if src == 6 {
            steps3(MicroInstr::NOP, MicroInstr::NOP, MicroInstr::RESHL(n))
        } else {
            steps1(MicroInstr::RES(n, grid_register(src)))
        }
    } else {
        if src == 6 {
            steps3(MicroInstr::NOP, MicroInstr::NOP, MicroInstr::SETHL(n))
        } else {
            steps1(MicroInstr::SET(n, grid_register(src)))
        }
    }
}

} // verus!
