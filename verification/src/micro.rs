//! The micro-operation vocabulary. Each decoded instruction is an ordered
//! queue of these atomic steps, executed one per machine cycle; the queue
//! length equals the instruction's machine-cycle count including the fetch
//! cycle.
use crate::registers::Flag;
use crate::registers::Register;
use vstd::prelude::*;

verus! {

/// Selects the low or the high scratch byte of an in-flight instruction.
#[derive(Clone, Copy, PartialEq, Eq, Structural, Debug)]
pub enum Byte {
    LSB,
    MSB,
}

/// One atomic executor action. At most one memory access per micro-op cycle
/// for plain loads and stores; read-modify-write steps on `(HL)` keep their
/// dedicated access cycle through leading idle steps in the decoded queue.
#[derive(Clone, Copy, PartialEq, Eq, Structural, Debug)]
pub enum MicroInstr {
    // fetch helpers
    Read(Byte),
    Cond(Flag, bool),
    // loads
    LDRR(Register, Register),
    LDRN(Register),
    LDNNR(u16, Register, bool),
    LDRNN(Register, u16, bool),
    LDHLN,
    LDAHLINC,
    LDHLINCA,
    LDHLDECA,
    LDAHLDEC,
    LDSPNN,
    LDNNSP(Byte),
    LDSPHL,
    LDHLSPN,
    // 8- and 16-bit increment / decrement
    INC(Register),
    DEC(Register),
    INCHLADDR,
    INCHL,
    INCBC,
    INCDE,
    INCSP,
    DECBC,
    DECDE,
    DECHL,
    DECSP,
    DECNN(u16),
    // jumps, calls, returns
    JP,
    JPHL,
    JR,
    PUSH(u8),
    POPPC(Byte),
    POPR(Register),
    RST(u16),
    // arithmetic and logic
    OR(Register),
    ORN,
    ORHL,
    XOR(Register),
    XORN,
    XORHL,
    CP(Register),
    CPN,
    CPHL,
    AND(Register),
    ANDHL,
    ANDN,
    ADD(Register),
    ADDN,
    ADDHL,
    ADDHLNN(u16),
    ADDSPN,
    ADC(Register),
    ADCHL,
    ADCN,
    SUB(Register),
    SUBHL,
    SUBN,
    SBC(Register),
    SBCHL,
    SBCN,
    DAA,
    // rotates, shifts, swaps and bit operations
    SRLR(Register),
    SRLHL,
    RRR(Register),
    RRHL,
    RRA,
    RRCHL,
    RRCR(Register),
    SLAHL,
    SLAR(Register),
    RLCR(Register),
    RLCHL,
    RLHL,
    RLR(Register),
    SRAHL,
    SRAR(Register),
    SWAP(Register),
    SWAPHL,
    BIT(u8, Register),
    BITHL(u8),
    RES(u8, Register),
    RESHL(u8),
    SET(u8, Register),
    SETHL(u8),
    RLCA,
    RLA,
    RRCA,
    // miscellaneous
    CPL,
    SCF,
    CCF,
    NOP,
    HALT,
    STOP,
    // interrupt-enable control
    DI,
    RETI,
    EI,
}

/// A decoded instruction: its mnemonic and its micro-op queue.
pub struct Instruction {
    pub name: String,
    pub steps: Vec<MicroInstr>,
}

/// Build a one-element micro-op queue.
pub fn steps1(a: MicroInstr) -> (r: Vec<MicroInstr>)
    ensures
        r@ == seq![a],
{
    let mut r: Vec<MicroInstr> = Vec::new();
    r.push(a);
    proof {
        assert(r@ =~= seq![a]);
    }
    r
}

/// Build a two-element micro-op queue.
pub fn steps2(a: MicroInstr, b: MicroInstr) -> (r: Vec<MicroInstr>)
    ensures
        r@ == seq![a, b],
{
    let mut r: Vec<MicroInstr> = Vec::new();
    r.push(a);
    r.push(b);
    proof {
        assert(r@ =~= seq![a, b]);
    }
    r
}

/// Build a three-element micro-op queue.
pub fn steps3(a: MicroInstr, b: MicroInstr, c: MicroInstr) -> (r: Vec<MicroInstr>)
    ensures
        r@ == seq![a, b, c],
{
    let mut r: Vec<MicroInstr> = Vec::new();
    r.push(a);
    r.push(b);
    r.push(c);
    proof {
        assert(r@ =~= seq![a, b, c]);
    }
    r
}

/// Build a four-element micro-op queue.
pub fn steps4(a: MicroInstr, b: MicroInstr, c: MicroInstr, d: MicroInstr) -> (r: Vec<MicroInstr>)
    ensures
        r@ == seq![a, b, c, d],
{
    let mut r: Vec<MicroInstr> = Vec::new();
    r.push(a);
    r.push(b);
    r.push(c);
    r.push(d);
    proof {
        assert(r@ =~= seq![a, b, c, d]);
    }
    r
}

/// Build a five-element micro-op queue.
pub fn steps5(
    a: MicroInstr,
    b: MicroInstr,
    c: MicroInstr,
    d: MicroInstr,
    e: MicroInstr,
) -> (r: Vec<MicroInstr>)
    ensures
        r@ == seq![a, b, c, d, e],
{
    let mut r: Vec<MicroInstr> = Vec::new();
    r.push(a);
    r.push(b);
    r.push(c);
    r.push(d);
    r.push(e);
    proof {
        assert(r@ =~= seq![a, b, c, d, e]);
    }
    r
}

/// Build a six-element micro-op queue.
pub fn steps6(
    a: MicroInstr,
    b: MicroInstr,
    c: MicroInstr,
    d: MicroInstr,
    e: MicroInstr,
    f: MicroInstr,
) -> (r: Vec<MicroInstr>)
    ensures
        r@ == seq![a, b, c, d, e, f],
{
    let mut r: Vec<MicroInstr> = Vec::new();
    r.push(a);
    r.push(b);
    r.push(c);
    r.push(d);
    r.push(e);
    r.push(f);
    proof {
        assert(r@ =~= seq![a, b, c, d, e, f]);
    }
    r
}

} // verus!
