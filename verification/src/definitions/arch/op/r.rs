use vstd::prelude::*;

verus! {

pub const ADD: u32 = 0b100000;

pub const ADDU: u32 = 0b100001;

pub const AND: u32 = 0b100100;

pub const NOR: u32 = 0b100111;

pub const OR: u32 = 0b100101;

pub const SUB: u32 = 0b100010;

pub const SUBU: u32 = 0b100011;

pub const XOR: u32 = 0b100110;

pub const SLT: u32 = 0b101010;

pub const SLTU: u32 = 0b101001;

pub const DIV: u32 = 0b011010;

pub const DIVU: u32 = 0b011011;

pub const MULT: u32 = 0b011000;

pub const MULTU: u32 = 0b011001;

pub const SLL: u32 = 0b000000;

pub const SRA: u32 = 0b000011;

pub const SRAV: u32 = 0b000111;

pub const SRLV: u32 = 0b000110;

pub const JALR: u32 = 0b001001;

pub const JR: u32 = 0b001000;

pub const MFHI: u32 = 0b010000;

pub const MFLO: u32 = 0b010010;

pub const MTHI: u32 = 0b010001;

pub const MTLO: u32 = 0b010011;

} // verus!
