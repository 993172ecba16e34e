use vstd::prelude::*;

verus! {

pub const ADDI: u32 = 0b001000;

pub const ADDIU: u32 = 0b001001;

pub const ANDI: u32 = 0b001100;

pub const ORI: u32 = 0b001101;

pub const XORI: u32 = 0b001110;

pub const SLTI: u32 = 0b001010;

pub const SLTIU: u32 = 0b001011;

pub const LHI: u32 = 0b011001;

pub const LLO: u32 = 0b011000;

pub const BEQ: u32 = 0b000100;

pub const BNE: u32 = 0b000101;

pub const BGTZ: u32 = 0b000111;

pub const BLEZ: u32 = 0b000110;

pub const LB: u32 = 0b100000;

pub const LBU: u32 = 0b100100;

pub const LH: u32 = 0b100001;

pub const LHU: u32 = 0b100101;

pub const LW: u32 = 0b100011;

pub const SB: u32 = 0b101000;

pub const SH: u32 = 0b101001;

pub const SW: u32 = 0b101011;

} // verus!
