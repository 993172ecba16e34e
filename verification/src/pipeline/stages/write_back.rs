use super::execution::EX_OUT;
use crate::definitions::errors::{ExecutionError, RegisterError};
use crate::devices::registers::SuccessfulOwn;
use crate::pipeline::pipelined::Pipelined;
use vstd::prelude::*;

verus! {

/// The write-back stage: it hands the result of an instruction and its
/// destination on to the decode stage, which holds the registers.
pub struct WriteBack {
    pub latch_in_WB: EX_OUT,
    pub latch_in_RDest: Option<Result<SuccessfulOwn, RegisterError>>,
    pub latch_in_instruction_ID: usize,
    pub latch_out_WB_contents: EX_OUT,
    pub latch_out_RDest: Option<SuccessfulOwn>,
    pub latch_out_instruction_ID: usize,
    pub verbose: bool,
}

impl WriteBack {
    pub fn new(verbose: bool) -> (wb: WriteBack)
        ensures
            wb == (WriteBack {
                latch_in_WB: EX_OUT::NoOutput,
                latch_in_RDest: None,
                latch_in_instruction_ID: 0,
                latch_out_WB_contents: EX_OUT::NoOutput,
                latch_out_RDest: None,
                latch_out_instruction_ID: 0,
                verbose,
            }),
    {
        WriteBack {
            latch_in_WB: EX_OUT::NoOutput,
            latch_in_RDest: None,
            latch_in_instruction_ID: 0,
            latch_out_WB_contents: EX_OUT::NoOutput,
            latch_out_RDest: None,
            latch_out_instruction_ID: 0,
            verbose,
        }
    }

    /// Tests whether the stage can work on what is on its input latches.
    pub fn is_ready(&self) -> (r: bool)
        ensures
            r == self.ready(),
    {
        match self.latch_in_RDest {
            Some(Err(_)) => false,
            _ => true,
        }
    }

    /// The stage after its work on a destination that is owned, or on none.
    pub open spec fn ticked(self) -> WriteBack {
        WriteBack {
            latch_out_WB_contents: self.latch_in_WB,
            latch_out_RDest: match self.latch_in_RDest {
                Some(Ok(own)) => Some(own),
                _ => None,
            },
            latch_out_instruction_ID: self.latch_in_instruction_ID,
            ..self
        }
    }
}

impl Pipelined for WriteBack {
    /// A destination that is still locked by another instruction must not
    /// reach this stage.
    open spec fn ready(&self) -> bool {
        !(self.latch_in_RDest matches Some(Err(_)))
    }

    /// Hands on the result, the destination and the handle of the instruction.
    fn tick(&mut self) -> (res: Result<(), ExecutionError>)
        ensures
            res is Ok,
            *final(self) == old(self).ticked(),
    {
        self.latch_out_WB_contents = self.latch_in_WB;
        self.latch_out_RDest = match self.latch_in_RDest {
            Some(Ok(own)) => Some(own),
            _ => None,
        };
        self.latch_out_instruction_ID = self.latch_in_instruction_ID;
        Ok(())
    }
}

} // verus!
