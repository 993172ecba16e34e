use crate::definitions::errors::ExecutionError;
use crate::memory::Memory;
use vstd::prelude::*;

verus! {

/// A pipeline stage that works on its latches and on the core's memory.
pub trait PipelinedWithHeldMemory {
    /// Does the work of one cycle on `mem`.
    fn tick_with_mem(&mut self, mem: &mut Memory) -> (res: Result<(), ExecutionError>)
    ;
}

} // verus!
