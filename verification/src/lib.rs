//! A cycle-accurate instruction execution engine for the Sharp SM83 CPU
//! core: it decodes a byte stream of opcodes against the base and the
//! 0xCB-prefixed extended table, mutates a register file and a flat 64 KiB
//! memory, and reports the machine cycles each instruction consumed. Every
//! instruction's effect on registers, flags, memory and the cycle count is
//! stated in `cpu::step8`, `cpu::step16` and `cpu::full_step` and proved
//! of the executable engine.

pub mod byte_instruction;
pub mod cpu;
pub mod instruction;
pub mod memory;
pub mod registers;
pub mod utils;

use vstd::prelude::*;

verus! {

/// The two failure kinds of the execution core: an opcode (or selector
/// encoding) that matches no instruction, carrying the offending byte, and a
/// memory read outside the addressable space, carrying the address.
#[derive(Clone, Copy, Debug, PartialEq, Eq, Structural)]
pub enum CpuError {
    Decode { byte: u8 },
    MemoryAccess { addr: u16 },
}

} // verus!
