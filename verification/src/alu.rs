//! Register-level ALU and rotate/shift operations with their exact flag
//! effects: Z is set from the result where an operation sets Z, N marks
//! subtractions, H is the carry out of bit 3 (borrow out of bit 4 for
//! subtractions), C the carry or borrow out of bit 7.
use crate::registers::Flag;
use crate::registers::Register;
use crate::registers::Registers;
use vstd::prelude::*;

verus! {

/// A after ADD: A := A + v, Z from the sum, N 0, H from bit 3, C from bit 7.
#[verifier::opaque]
pub open spec fn spec_alu_add(r: Registers, v: u8) -> Registers {
    let r1 = r.spec_set_flag(Flag::Z, r.a.wrapping_add(v) == 0);
    let r2 = r1.spec_set_flag(Flag::N, false);
    let r3 = r2.spec_set_flag(Flag::H, ((r.a & 0xF).wrapping_add(v & 0xF)) & 0x10 == 0x10);
    let r4 = r3.spec_set_flag(Flag::C, (r.a as u16) + (v as u16) > 0xFF);
    Registers { a: r.a.wrapping_add(v), ..r4 }
}

/// A after ADC: as ADD but with the incoming carry added in.
#[verifier::opaque]
pub open spec fn spec_alu_adc(r: Registers, v: u8) -> Registers {
    let c = r.spec_get_flag(Flag::C);
    let r1 = r.spec_set_flag(Flag::Z, r.a.wrapping_add(v).wrapping_add(c) == 0);
    let r2 = r1.spec_set_flag(Flag::N, false);
    let r3 = r2.spec_set_flag(
        Flag::H,
        ((r.a & 0xF).wrapping_add(v & 0xF).wrapping_add(c)) & 0x10 == 0x10,
    );
    let r4 = r3.spec_set_flag(Flag::C, (r.a as u16) + (v as u16) + (c as u16) > 0xFF);
    Registers { a: r.a.wrapping_add(v).wrapping_add(c), ..r4 }
}

/// A after SUB: A := A - v, Z from the difference, N 1, H borrow from bit
/// 4, C set when v exceeds A.
#[verifier::opaque]
pub open spec fn spec_alu_sub(r: Registers, v: u8) -> Registers {
    let r1 = r.spec_set_flag(Flag::Z, r.a.wrapping_sub(v) == 0);
    let r2 = r1.spec_set_flag(Flag::N, true);
    let r3 = r2.spec_set_flag(Flag::H, ((r.a & 0xF).wrapping_sub(v & 0xF)) & 0x10 == 0x10);
    let r4 = r3.spec_set_flag(Flag::C, r.a < v);
    Registers { a: r.a.wrapping_sub(v), ..r4 }
}

/// A after SBC: as SUB but with the incoming carry subtracted as well.
#[verifier::opaque]
pub open spec fn spec_alu_sbc(r: Registers, v: u8) -> Registers {
    let c = r.spec_get_flag(Flag::C);
    let r1 = r.spec_set_flag(Flag::Z, r.a.wrapping_sub(v.wrapping_add(c)) == 0);
    let r2 = r1.spec_set_flag(Flag::N, true);
    let r3 = r2.spec_set_flag(
        Flag::H,
        ((r.a & 0xF).wrapping_sub(v & 0xF).wrapping_sub(c)) & 0x10 == 0x10,
    );
    let r4 = r3.spec_set_flag(Flag::C, (r.a as u16) < (v as u16) + (c as u16));
    Registers { a: r.a.wrapping_sub(v.wrapping_add(c)), ..r4 }
}

/// A after AND: Z from the result, N 0, H 1, C 0.
#[verifier::opaque]
pub open spec fn spec_alu_and(r: Registers, v: u8) -> Registers {
    let a = r.a & v;
    let r1 = r.spec_set_flag(Flag::Z, a == 0);
    let r2 = r1.spec_set_flag(Flag::N, false);
    let r3 = r2.spec_set_flag(Flag::H, true);
    let r4 = r3.spec_set_flag(Flag::C, false);
    Registers { a: a, ..r4 }
}

/// A after OR: Z from the result, N/H/C 0.
#[verifier::opaque]
pub open spec fn spec_alu_or(r: Registers, v: u8) -> Registers {
    let a = r.a | v;
    let r1 = r.spec_set_flag(Flag::Z, a == 0);
    let r2 = r1.spec_set_flag(Flag::N, false);
    let r3 = r2.spec_set_flag(Flag::H, false);
    let r4 = r3.spec_set_flag(Flag::C, false);
    Registers { a: a, ..r4 }
}

/// A after XOR: Z from the result, N/H/C 0.
#[verifier::opaque]
pub open spec fn spec_alu_xor(r: Registers, v: u8) -> Registers {
    let a = r.a ^ v;
    let r1 = r.spec_set_flag(Flag::Z, a == 0);
    let r2 = r1.spec_set_flag(Flag::N, false);
    let r3 = r2.spec_set_flag(Flag::H, false);
    let r4 = r3.spec_set_flag(Flag::C, false);
    Registers { a: a, ..r4 }
}

/// Flags after CP: the SUB flags without storing the difference.
#[verifier::opaque]
pub open spec fn spec_alu_cp(r: Registers, v: u8) -> Registers {
    let r1 = r.spec_set_flag(Flag::Z, r.a.wrapping_sub(v) == 0);
    let r2 = r1.spec_set_flag(Flag::N, true);
    let r3 = r2.spec_set_flag(Flag::H, ((r.a & 0xF).wrapping_sub(v & 0xF)) & 0x10 == 0x10);
    r3.spec_set_flag(Flag::C, r.a < v)
}

/// One register after INC: Z from the new value, N 0, H from bit 3; C is
/// untouched.
#[verifier::opaque]
pub open spec fn spec_alu_inc(r: Registers, reg: Register) -> Registers {
    let v = r.spec_get(reg);
    let r1 = r.spec_set_flag(Flag::Z, v.wrapping_add(1) == 0);
    let r2 = r1.spec_set_flag(Flag::N, false);
    let r3 = r2.spec_set_flag(Flag::H, ((v & 0xF).wrapping_add(1)) & 0x10 == 0x10);
    r3.spec_set(reg, v.wrapping_add(1))
}

/// One register after DEC: Z from the new value, N 1, H borrow from bit 4;
/// C is untouched.
#[verifier::opaque]
pub open spec fn spec_alu_dec(r: Registers, reg: Register) -> Registers {
    let v = r.spec_get(reg);
    let r1 = r.spec_set_flag(Flag::Z, v.wrapping_sub(1) == 0);
    let r2 = r1.spec_set_flag(Flag::N, true);
    let r3 = r2.spec_set_flag(Flag::H, ((v & 0xF).wrapping_sub(1)) & 0x10 == 0x10);
    r3.spec_set(reg, v.wrapping_sub(1))
}

/// HL after ADD HL,rr: N 0, H from bit 11, C from bit 15, Z untouched.
#[verifier::opaque]
pub open spec fn spec_alu_add_hl(r: Registers, v: u16) -> Registers {
    let hl = r.spec_hl();
    let r1 = r.spec_set_flag(Flag::N, false);
    let r2 = r1.spec_set_flag(Flag::H, (hl % 0x1000) + (v % 0x1000) > 0x0FFF);
    let r3 = r2.spec_set_flag(Flag::C, (hl as u32) + (v as u32) > 0xFFFF);
    r3.spec_set_hl(hl.wrapping_add(v))
}

/// A after DAA, the BCD adjust: after an addition, add 0x06/0x60 per the
/// half and full carries or digit overflow, setting C on the high fix;
/// after a subtraction, subtract them per the carries. Z is set from the
/// result and H cleared.
#[verifier::opaque]
pub open spec fn spec_alu_daa(r: Registers) -> Registers {
    let low_fix: u8 = if r.spec_get_flag(Flag::H) == 1 || (r.spec_get_flag(Flag::N) == 0 && (r.a
        & 0xF) > 9) {
        0x6
    } else {
        0
    };
    let c_fix = r.spec_get_flag(Flag::C) == 1 || (r.spec_get_flag(Flag::N) == 0 && r.a > 0x99);
    let corr: u8 = if c_fix {
        low_fix | 0x60
    } else {
        low_fix
    };
    let r1 = if c_fix {
        r.spec_set_flag(Flag::C, true)
    } else {
        r
    };
    let a = if r1.spec_get_flag(Flag::N) == 1 {
        r1.a.wrapping_sub(corr)
    } else {
        r1.a.wrapping_add(corr)
    };
    let r2 = Registers { a: a, ..r1 };
    let r3 = r2.spec_set_flag(Flag::Z, a == 0);
    r3.spec_set_flag(Flag::H, false)
}

/// One register after RLC: rotate left, bit 7 into bit 0 and into C.
#[verifier::opaque]
pub open spec fn spec_rlc_byte(b: u8) -> u8 {
    if (b >> 7) & 0x1 == 1 {
        (b << 1) | 0x01
    } else {
        (b << 1) & 0xFE
    }
}

/// One register after RRC: rotate right, bit 0 into bit 7 and into C.
#[verifier::opaque]
pub open spec fn spec_rrc_byte(b: u8) -> u8 {
    if b & 0x1 == 1 {
        (b >> 1) | 0x80
    } else {
        (b >> 1) & 0x7F
    }
}

/// One register after RL: shift left, C into bit 0, old bit 7 into C.
#[verifier::opaque]
pub open spec fn spec_rl_byte(b: u8, carry: bool) -> u8 {
    if carry {
        (b << 1) | 0x01
    } else {
        (b << 1) & 0xFE
    }
}

/// One register after RR: shift right, C into bit 7, old bit 0 into C.
#[verifier::opaque]
pub open spec fn spec_rr_byte(b: u8, carry: bool) -> u8 {
    if carry {
        (b >> 1) | 0x80
    } else {
        (b >> 1) & 0x7F
    }
}

/// One register after SRA: arithmetic shift right, bit 7 kept.
#[verifier::opaque]
pub open spec fn spec_sra_byte(b: u8) -> u8 {
    if (b >> 7) & 0x1 == 1 {
        (b >> 1) | 0x80
    } else {
        (b >> 1) & 0x7F
    }
}

/// One register after SWAP: the nibbles exchanged.
#[verifier::opaque]
pub open spec fn spec_swap_byte(b: u8) -> u8 {
    ((b & 0x0F) << 4) | ((b & 0xF0) >> 4)
}

/// The rotate/shift flag write: Z as given, N/H 0, C as given.
#[verifier::opaque]
pub open spec fn spec_rot_flags(r: Registers, z: bool, c: bool) -> Registers {
    let r1 = r.spec_set_flag(Flag::C, c);
    let r2 = r1.spec_set_flag(Flag::Z, z);
    let r3 = r2.spec_set_flag(Flag::N, false);
    r3.spec_set_flag(Flag::H, false)
}

impl Registers {
    /// ADD A,v.
    pub fn alu_add(&mut self, v: u8)
        ensures
            *final(self) == spec_alu_add(*old(self), v),
    {
        proof {
            reveal(spec_alu_add);
        }
        let a = self.a;
        self.set_flag(Flag::Z, a.wrapping_add(v) == 0);
        self.set_flag(Flag::N, false);
        self.set_flag(Flag::H, ((a & 0xF).wrapping_add(v & 0xF)) & 0x10 == 0x10);
        self.set_flag(Flag::C, (a as u16) + (v as u16) > 0xFF);
        self.a = a.wrapping_add(v);
    }

    /// ADC A,v.
    pub fn alu_adc(&mut self, v: u8)
        ensures
            *final(self) == spec_alu_adc(*old(self), v),
    {
        proof {
            reveal(spec_alu_adc);
        }
        let a = self.a;
        let c = self.get_flag(Flag::C);
        self.set_flag(Flag::Z, a.wrapping_add(v).wrapping_add(c) == 0);
        self.set_flag(Flag::N, false);
        self.set_flag(Flag::H, ((a & 0xF).wrapping_add(v & 0xF).wrapping_add(c)) & 0x10 == 0x10);
        self.set_flag(Flag::C, (a as u16) + (v as u16) + (c as u16) > 0xFF);
        self.a = a.wrapping_add(v).wrapping_add(c);
    }

    /// SUB A,v.
    pub fn alu_sub(&mut self, v: u8)
        ensures
            *final(self) == spec_alu_sub(*old(self), v),
    {
        proof {
            reveal(spec_alu_sub);
        }
        let a = self.a;
        self.set_flag(Flag::Z, a.wrapping_sub(v) == 0);
        self.set_flag(Flag::N, true);
        self.set_flag(Flag::H, ((a & 0xF).wrapping_sub(v & 0xF)) & 0x10 == 0x10);
        self.set_flag(Flag::C, a < v);
        self.a = a.wrapping_sub(v);
    }

    /// SBC A,v.
    pub fn alu_sbc(&mut self, v: u8)
        ensures
            *final(self) == spec_alu_sbc(*old(self), v),
    {
        proof {
            reveal(spec_alu_sbc);
        }
        let a = self.a;
        let c = self.get_flag(Flag::C);
        self.set_flag(Flag::Z, a.wrapping_sub(v.wrapping_add(c)) == 0);
        self.set_flag(Flag::N, true);
        self.set_flag(Flag::H, ((a & 0xF).wrapping_sub(v & 0xF).wrapping_sub(c)) & 0x10 == 0x10);
        self.set_flag(Flag::C, (a as u16) < (v as u16) + (c as u16));
        self.a = a.wrapping_sub(v.wrapping_add(c));
    }

    /// AND A,v.
    pub fn alu_and(&mut self, v: u8)
        ensures
            *final(self) == spec_alu_and(*old(self), v),
    {
        proof {
            reveal(spec_alu_and);
        }
        let a = self.a & v;
        self.set_flag(Flag::Z, a == 0);
        self.set_flag(Flag::N, false);
        self.set_flag(Flag::H, true);
        self.set_flag(Flag::C, false);
        self.a = a;
    }

    /// OR A,v.
    pub fn alu_or(&mut self, v: u8)
        ensures
            *final(self) == spec_alu_or(*old(self), v),
    {
        proof {
            reveal(spec_alu_or);
        }
        let a = self.a | v;
        self.set_flag(Flag::Z, a == 0);
        self.set_flag(Flag::N, false);
        self.set_flag(Flag::H, false);
        self.set_flag(Flag::C, false);
        self.a = a;
    }

    /// XOR A,v.
    pub fn alu_xor(&mut self, v: u8)
        ensures
            *final(self) == spec_alu_xor(*old(self), v),
    {
        proof {
            reveal(spec_alu_xor);
        }
        let a = self.a ^ v;
        self.set_flag(Flag::Z, a == 0);
        self.set_flag(Flag::N, false);
        self.set_flag(Flag::H, false);
        self.set_flag(Flag::C, false);
        self.a = a;
    }

    /// CP A,v.
    pub fn alu_cp(&mut self, v: u8)
        ensures
            *final(self) == spec_alu_cp(*old(self), v),
    {
        proof {
            reveal(spec_alu_cp);
        }
        let a = self.a;
        self.set_flag(Flag::Z, a.wrapping_sub(v) == 0);
        self.set_flag(Flag::N, true);
        self.set_flag(Flag::H, ((a & 0xF).wrapping_sub(v & 0xF)) & 0x10 == 0x10);
        self.set_flag(Flag::C, a < v);
    }

    /// INC reg.
    pub fn alu_inc(&mut self, reg: Register)
        ensures
            *final(self) == spec_alu_inc(*old(self), reg),
    {
        proof {
            reveal(spec_alu_inc);
        }
        let v = self.get(reg);
        self.set_flag(Flag::Z, v.wrapping_add(1) == 0);
        self.set_flag(Flag::N, false);
        self.set_flag(Flag::H, ((v & 0xF).wrapping_add(1)) & 0x10 == 0x10);
        self.set(reg, v.wrapping_add(1));
    }

    /// DEC reg.
    pub fn alu_dec(&mut self, reg: Register)
        ensures
            *final(self) == spec_alu_dec(*old(self), reg),
    {
        proof {
            reveal(spec_alu_dec);
        }
        let v = self.get(reg);
        self.set_flag(Flag::Z, v.wrapping_sub(1) == 0);
        self.set_flag(Flag::N, true);
        self.set_flag(Flag::H, ((v & 0xF).wrapping_sub(1)) & 0x10 == 0x10);
        self.set(reg, v.wrapping_sub(1));
    }

    /// ADD HL,v.
    pub fn alu_add_hl(&mut self, v: u16)
        ensures
            *final(self) == spec_alu_add_hl(*old(self), v),
    {
        proof {
            reveal(spec_alu_add_hl);
        }
        let hl = self.get_hl();
        self.set_flag(Flag::N, false);
        self.set_flag(Flag::H, (hl % 0x1000) + (v % 0x1000) > 0x0FFF);
        self.set_flag(Flag::C, (hl as u32) + (v as u32) > 0xFFFF);
        self.set_hl(hl.wrapping_add(v));
    }

    /// DAA.
    pub fn alu_daa(&mut self)
        ensures
            *final(self) == spec_alu_daa(*old(self)),
    {
        proof {
            reveal(spec_alu_daa);
        }
        let low_fix: u8 = if self.get_flag(Flag::H) == 1 || (self.get_flag(Flag::N) == 0 && (self.a
            & 0xF) > 9) {
            0x6
        } else {
            0
        };
        let c_fix = self.get_flag(Flag::C) == 1 || (self.get_flag(Flag::N) == 0 && self.a > 0x99);
        let corr: u8 = if c_fix {
            low_fix | 0x60
        } else {
            low_fix
        };
        if c_fix {
            self.set_flag(Flag::C, true);
        }
        if self.get_flag(Flag::N) == 1 {
            self.a = self.a.wrapping_sub(corr);
        } else {
            self.a = self.a.wrapping_add(corr);
        }
        let a = self.a;
        self.set_flag(Flag::Z, a == 0);
        self.set_flag(Flag::H, false);
    }

    /// Write the rotate/shift flags: C, Z, then N and H cleared.
    pub fn rot_flags(&mut self, z: bool, c: bool)
        ensures
            *final(self) == spec_rot_flags(*old(self), z, c),
    {
        proof {
            reveal(spec_rot_flags);
        }
        self.set_flag(Flag::C, c);
        self.set_flag(Flag::Z, z);
        self.set_flag(Flag::N, false);
        self.set_flag(Flag::H, false);
    }
}

/// RLC of a byte.
pub fn rlc_byte(b: u8) -> (r: u8)
    ensures
        r == spec_rlc_byte(b),
{
    proof {
        reveal(spec_rlc_byte);
    }
    if (b >> 7) & 0x1 == 1 {
        (b << 1) | 0x01
    } else {
        (b << 1) & 0xFE
    }
}

/// RRC of a byte.
pub fn rrc_byte(b: u8) -> (r: u8)
    ensures
        r == spec_rrc_byte(b),
{
    proof {
        reveal(spec_rrc_byte);
    }
    if b & 0x1 == 1 {
        (b >> 1) | 0x80
    } else {
        (b >> 1) & 0x7F
    }
}

/// RL of a byte with the incoming carry.
pub fn rl_byte(b: u8, carry: bool) -> (r: u8)
    ensures
        r == spec_rl_byte(b, carry),
{
    proof {
        reveal(spec_rl_byte);
    }
    if carry {
        (b << 1) | 0x01
    } else {
        (b << 1) & 0xFE
    }
}

/// RR of a byte with the incoming carry.
pub fn rr_byte(b: u8, carry: bool) -> (r: u8)
    ensures
        r == spec_rr_byte(b, carry),
{
    proof {
        reveal(spec_rr_byte);
    }
    if carry {
        (b >> 1) | 0x80
    } else {
        (b >> 1) & 0x7F
    }
}

/// SRA of a byte.
pub fn sra_byte(b: u8) -> (r: u8)
    ensures
        r == spec_sra_byte(b),
{
    proof {
        reveal(spec_sra_byte);
    }
    if (b >> 7) & 0x1 == 1 {
        (b >> 1) | 0x80
    } else {
        (b >> 1) & 0x7F
    }
}

/// SWAP of a byte.
pub fn swap_byte(b: u8) -> (r: u8)
    ensures
        r == spec_swap_byte(b),
{
    proof {
        reveal(spec_swap_byte);
    }
    ((b & 0x0F) << 4) | ((b & 0xF0) >> 4)
}

} // verus!
