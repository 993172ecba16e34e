use crate::definitions::errors::ExecutionError;
use vstd::prelude::*;

verus! {

/// A pipeline stage that works on its own latches alone.
pub trait Pipelined {
    /// Whether the input latches hold what the stage can work on.
    spec fn ready(&self) -> bool;

    /// Does the work of one cycle: reads the input latches and writes the
    /// output latches.
    fn tick(&mut self) -> (res: Result<(), ExecutionError>)
        requires
            old(self).ready(),
    ;
}

} // verus!
