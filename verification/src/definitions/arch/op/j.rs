use vstd::prelude::*;

verus! {

pub const J: u32 = 0b000010;

pub const JAL: u32 = 0b000011;

} // verus!
