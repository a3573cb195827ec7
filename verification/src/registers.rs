//! The CPU register file: eight byte registers A, B, C, D, E, H, L, F with
//! paired 16-bit views BC/DE/HL/AF and the four flag bits Z, N, H, C held in
//! the high nibble of F.
use vstd::prelude::*;

verus! {

/// One of the eight byte-addressable CPU registers.
#[derive(Clone, Copy, PartialEq, Eq, Structural, Debug)]
pub enum Register {
    A,
    B,
    C,
    D,
    E,
    H,
    L,
    F,
}

/// One of the four flag bits held in register F: Z (bit 7), N (bit 6),
/// H (bit 5), C (bit 4).
#[derive(Clone, Copy, PartialEq, Eq, Structural, Debug)]
pub enum Flag {
    Z,
    N,
    H,
    C,
}

/// The register file. The low nibble of F is architecturally zero on the
/// flag paths: flag writes touch only bits 4-7 and POP AF masks the popped
/// byte; a raw `set` of F stores the byte as given.
#[derive(Clone, Copy, PartialEq, Eq, Structural, Debug)]
pub struct Registers {
    pub a: u8,
    pub b: u8,
    pub c: u8,
    pub d: u8,
    pub e: u8,
    pub h: u8,
    pub l: u8,
    pub f: u8,
}

impl Registers {
    /// The value of one byte register.
    pub open spec fn spec_get(self, register: Register) -> u8 {
        match register {
            Register::A => self.a,
            Register::B => self.b,
            Register::C => self.c,
            Register::D => self.d,
            Register::E => self.e,
            Register::H => self.h,
            Register::L => self.l,
            Register::F => self.f,
        }
    }

    /// The register file after storing `val` in one byte register.
    pub open spec fn spec_set(self, register: Register, val: u8) -> Registers {
        match register {
            Register::A => Registers { a: val, ..self },
            Register::B => Registers { b: val, ..self },
            Register::C => Registers { c: val, ..self },
            Register::D => Registers { d: val, ..self },
            Register::E => Registers { e: val, ..self },
            Register::H => Registers { h: val, ..self },
            Register::L => Registers { l: val, ..self },
            Register::F => Registers { f: val, ..self },
        }
    }

    /// Read one byte register.
    pub fn get(&self, register: Register) -> (val: u8)
        ensures
            val == self.spec_get(register),
    {
        match register {
            Register::A => self.a,
            Register::B => self.b,
            Register::C => self.c,
            Register::D => self.d,
            Register::E => self.e,
            Register::H => self.h,
            Register::L => self.l,
            Register::F => self.f,
        }
    }

    /// Write one byte register.
    pub fn set(&mut self, register: Register, val: u8)
        ensures
            *final(self) == old(self).spec_set(register, val),
    {
        match register {
            Register::A => self.a = val,
            Register::B => self.b = val,
            Register::C => self.c = val,
            Register::D => self.d = val,
            Register::E => self.e = val,
            Register::H => self.h = val,
            Register::L => self.l = val,
            Register::F => self.f = val,
        }
    }

    /// The bit position inside F of one flag.
    pub open spec fn flag_bit(flag: Flag) -> u8 {
        match flag {
            Flag::Z => 7,
            Flag::N => 6,
            Flag::H => 5,
            Flag::C => 4,
        }
    }

    /// The value (0 or 1) of one flag bit of F.
    pub open spec fn spec_get_flag(self, flag: Flag) -> u8 {
        (self.f >> Self::flag_bit(flag)) & 0x1
    }

    /// Read one flag bit of F as 0 or 1.
    pub fn get_flag(&self, flag: Flag) -> (bit: u8)
        ensures
            bit == self.spec_get_flag(flag),
    {
        match flag {
            Flag::Z => (self.f >> 7) & 0x1,
            Flag::N => (self.f >> 6) & 0x1,
            Flag::H => (self.f >> 5) & 0x1,
            Flag::C => (self.f >> 4) & 0x1,
        }
    }

    /// F after setting or clearing one flag bit.
    pub open spec fn spec_set_flag(self, flag: Flag, is_set: bool) -> Registers {
        let bit = Self::flag_bit(flag);
        if is_set {
            Registers { f: self.f | (1u8 << bit), ..self }
        } else {
            Registers { f: self.f & !(1u8 << bit), ..self }
        }
    }

    /// Set or clear one flag bit of F.
    pub fn set_flag(&mut self, flag: Flag, is_set: bool)
        ensures
            *final(self) == old(self).spec_set_flag(flag, is_set),
    {
        let bit: u8 = match flag {
            Flag::Z => 7,
            Flag::N => 6,
            Flag::H => 5,
            Flag::C => 4,
        };
        if is_set {
            self.f = self.f | (1u8 << bit);
        } else {
            self.f = self.f & !(1u8 << bit);
        }
    }

    /// The 16-bit pair BC.
    pub open spec fn spec_bc(self) -> u16 {
        ((self.b as u16) << 8) | (self.c as u16)
    }

    /// The 16-bit pair DE.
    pub open spec fn spec_de(self) -> u16 {
        ((self.d as u16) << 8) | (self.e as u16)
    }

    /// The 16-bit pair HL.
    pub open spec fn spec_hl(self) -> u16 {
        ((self.h as u16) << 8) | (self.l as u16)
    }

    /// The 16-bit pair AF; the low byte is F.
    pub open spec fn spec_af(self) -> u16 {
        ((self.a as u16) << 8) | (self.f as u16)
    }

    /// Read the 16-bit pair BC.
    pub fn get_bc(&self) -> (val: u16)
        ensures
            val == self.spec_bc(),
    {
        ((self.b as u16) << 8) | (self.c as u16)
    }

    /// Read the 16-bit pair DE.
    pub fn get_de(&self) -> (val: u16)
        ensures
            val == self.spec_de(),
    {
        ((self.d as u16) << 8) | (self.e as u16)
    }

    /// Read the 16-bit pair HL.
    pub fn get_hl(&self) -> (val: u16)
        ensures
            val == self.spec_hl(),
    {
        ((self.h as u16) << 8) | (self.l as u16)
    }

    /// The register file after storing a 16-bit value in BC.
    pub open spec fn spec_set_bc(self, val: u16) -> Registers {
        Registers { b: (val >> 8) as u8, c: (val & 0xFF) as u8, ..self }
    }

    /// The register file after storing a 16-bit value in DE.
    pub open spec fn spec_set_de(self, val: u16) -> Registers {
        Registers { d: (val >> 8) as u8, e: (val & 0xFF) as u8, ..self }
    }

    /// The register file after storing a 16-bit value in HL.
    pub open spec fn spec_set_hl(self, val: u16) -> Registers {
        Registers { h: (val >> 8) as u8, l: (val & 0xFF) as u8, ..self }
    }

    /// Write the 16-bit pair BC.
    pub fn set_bc(&mut self, val: u16)
        ensures
            *final(self) == old(self).spec_set_bc(val),
    {
        self.b = (val >> 8) as u8;
        self.c = (val & 0xFF) as u8;
    }

    /// Write the 16-bit pair DE.
    pub fn set_de(&mut self, val: u16)
        ensures
            *final(self) == old(self).spec_set_de(val),
    {
        self.d = (val >> 8) as u8;
        self.e = (val & 0xFF) as u8;
    }

    /// Write the 16-bit pair HL.
    pub fn set_hl(&mut self, val: u16)
        ensures
            *final(self) == old(self).spec_set_hl(val),
    {
        self.h = (val >> 8) as u8;
        self.l = (val & 0xFF) as u8;
    }
}

impl Default for Registers {
    /// The power-on register file: every register cleared.
    fn default() -> (r: Registers)
        ensures
            r == (Registers { a: 0, b: 0, c: 0, d: 0, e: 0, h: 0, l: 0, f: 0 }),
    {
        Registers { a: 0, b: 0, c: 0, d: 0, e: 0, h: 0, l: 0, f: 0 }
    }
}

} // verus!
