//! Cycle-accurate core of a handheld 8-bit game console emulator: an SM83
//! CPU driven by micro-operation queues, a pixel-FIFO picture processor,
//! a memory bus with cartridge bank switching, and a timer unit, all
//! advancing in lockstep one machine cycle (four dots) at a time.
use vstd::prelude::*;

mod alu;
mod bess;
mod cpu;
mod decode;
mod laws;
mod memory;
mod micro;
mod ppu;
mod registers;
mod timer;

pub use bess::RestoreError;
pub use cpu::CPU;
pub use cpu::Interrupt;
pub use memory::BankingMode;
pub use memory::LoadError;
pub use memory::Memory;
pub use memory::MemoryBank;
pub use micro::Byte;
pub use micro::Instruction;
pub use micro::MicroInstr;
pub use ppu::Mode;
pub use ppu::PPU;
pub use registers::Flag;
pub use registers::Register;
pub use registers::Registers;
pub use timer::Timer;

verus! {

/// Little-endian encoding of a 32-bit value, least significant byte first.
pub open spec fn spec_u32_le(val: u32) -> Seq<u8> {
    seq![
        (val & 0xFF) as u8,
        ((val >> 8) & 0xFF) as u8,
        ((val >> 16) & 0xFF) as u8,
        ((val >> 24) & 0xFF) as u8,
    ]
}

/// Serialize a 32-bit value as four little-endian bytes.
pub fn u32_to_little_endian(val: u32) -> (r: [u8; 4])
    ensures
        r@ == spec_u32_le(val),
{
    let r = [
        (val & 0xFF) as u8,
        ((val >> 8) & 0xFF) as u8,
        ((val >> 16) & 0xFF) as u8,
        ((val >> 24) & 0xFF) as u8,
    ];
    proof {
        assert(r@ =~= spec_u32_le(val));
    }
    r
}

/// Little-endian encoding of a 64-bit value, least significant byte first.
pub open spec fn spec_u64_le(val: u64) -> Seq<u8> {
    seq![
        (val & 0xFF) as u8,
        ((val >> 8) & 0xFF) as u8,
        ((val >> 16) & 0xFF) as u8,
        ((val >> 24) & 0xFF) as u8,
        ((val >> 32) & 0xFF) as u8,
        ((val >> 40) & 0xFF) as u8,
        ((val >> 48) & 0xFF) as u8,
        ((val >> 56) & 0xFF) as u8,
    ]
}

/// Serialize a 64-bit value as eight little-endian bytes.
pub fn u64_to_little_endian(val: u64) -> (r: [u8; 8])
    ensures
        r@ == spec_u64_le(val),
{
    let r = [
        (val & 0xFF) as u8,
        ((val >> 8) & 0xFF) as u8,
        ((val >> 16) & 0xFF) as u8,
        ((val >> 24) & 0xFF) as u8,
        ((val >> 32) & 0xFF) as u8,
        ((val >> 40) & 0xFF) as u8,
        ((val >> 48) & 0xFF) as u8,
        ((val >> 56) & 0xFF) as u8,
    ];
    proof {
        assert(r@ =~= spec_u64_le(val));
    }
    r
}

} // verus!
