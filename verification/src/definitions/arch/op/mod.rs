use vstd::prelude::*;

pub mod i;
pub mod j;
pub mod r;

verus! {

// Whole instruction words of the operations that take no operands.
pub const NOP: u32 = 0x00000000;

pub const RFE: u32 = 0x42000001;

pub const HLT: u32 = 0x42000010;

pub const SYSCALL: u32 = 0x68000000;

/// The encoding class of an instruction.
#[derive(Clone, Copy, Debug, PartialEq, Eq, Structural)]
pub enum InstructionType {
    R,
    I,
    J,
    Special,
}

} // verus!
