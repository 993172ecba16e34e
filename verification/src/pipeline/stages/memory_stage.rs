use super::execution::EX_OUT;
use crate::access::{is_access_size, load_sized, loaded, store_sized, stored};
use crate::definitions::errors::{ExecutionError, ExecutionErrorView, RegisterError};
use crate::definitions::text::{decimal, decimal_text};
use crate::devices::registers::SuccessfulOwn;
use crate::memory::{Memory, MemoryView};
use crate::pipeline::pipelined_with_held_memory::PipelinedWithHeldMemory;
use vstd::prelude::*;
use vstd::string::StringExecFns;

verus! {

/// The memory stage: it makes the load or the store that the execute
/// stage asked for, and hands everything else on unchanged.
pub struct MemoryStage {
    pub latch_in_EX_OUT: EX_OUT,
    pub latch_in_RDest: Option<Result<SuccessfulOwn, RegisterError>>,
    pub latch_in_instruction_ID: usize,
    pub latch_in_is_privileged: bool,
    pub latch_out_WB: EX_OUT,
    pub latch_out_RDest: Option<Result<SuccessfulOwn, RegisterError>>,
    pub latch_out_instruction_ID: usize,
    pub verbose: bool,
}

pub open spec fn unsupported_size(size: u32) -> ExecutionErrorView {
    ExecutionErrorView::MemError("Size is not supported: Size="@ + decimal_text(size as nat))
}

/// What a tick of the memory stage leaves.
pub struct MemoryTick {
    pub stage: MemoryStage,
    pub mem: MemoryView,
    pub error: Option<ExecutionErrorView>,
}

impl MemoryStage {
    pub fn new(verbose: bool) -> (stage: MemoryStage)
        ensures
            stage == (MemoryStage {
                latch_in_EX_OUT: EX_OUT::NoOutput,
                latch_in_RDest: None,
                latch_in_instruction_ID: 0,
                latch_in_is_privileged: false,
                latch_out_WB: EX_OUT::NoOutput,
                latch_out_RDest: None,
                latch_out_instruction_ID: 0,
                verbose,
            }),
    {
        MemoryStage {
            latch_in_EX_OUT: EX_OUT::NoOutput,
            latch_in_RDest: None,
            latch_in_instruction_ID: 0,
            latch_in_is_privileged: false,
            latch_out_WB: EX_OUT::NoOutput,
            latch_out_RDest: None,
            latch_out_instruction_ID: 0,
            verbose,
        }
    }

    /// The stage with `out` and the input destination and handle on its outputs.
    pub open spec fn passed(self, out: EX_OUT) -> MemoryStage {
        MemoryStage {
            latch_out_WB: out,
            latch_out_RDest: self.latch_in_RDest,
            latch_out_instruction_ID: self.latch_in_instruction_ID,
            ..self
        }
    }

    /// What a tick leaves of the stage and of memory, where no device
    /// decides it: memory takes the stage's privilege; a load puts the word
    /// loaded on the output, a store puts nothing there, and anything else
    /// passes through. A tick that fails leaves the output latches as they were.
    pub open spec fn ticked(self, mem: MemoryView) -> Option<MemoryTick> {
        let m = MemoryView { privileged: self.latch_in_is_privileged, ..mem };
        match self.latch_in_EX_OUT {
            EX_OUT::LoadFrom(addr, size) => if !is_access_size(size as usize) {
                Some(MemoryTick { stage: self, mem: m, error: Some(unsupported_size(size)) })
            } else {
                match loaded(m, addr, size as usize) {
                    Some((after, Ok(v))) => Some(
                        MemoryTick {
                            stage: self.passed(EX_OUT::Value(v)),
                            mem: after,
                            error: None,
                        },
                    ),
                    Some((after, Err(e))) => Some(
                        MemoryTick { stage: self, mem: after, error: Some(e) },
                    ),
                    None => None,
                }
            },
            EX_OUT::StoreValue(word, addr, size) => if !is_access_size(size as usize) {
                Some(MemoryTick { stage: self, mem: m, error: Some(unsupported_size(size)) })
            } else {
                match stored(m, word, addr, size as usize) {
                    Some((after, None)) => Some(
                        MemoryTick {
                            stage: self.passed(EX_OUT::NoOutput),
                            mem: after,
                            error: None,
                        },
                    ),
                    Some((after, Some(e))) => Some(
                        MemoryTick { stage: self, mem: after, error: Some(e) },
                    ),
                    None => None,
                }
            },
            other => Some(MemoryTick { stage: self.passed(other), mem: m, error: None }),
        }
    }

    /// What a device may leave of a tick that it decides: a load puts some
    /// word on the output or fails, a store puts nothing there or fails, and
    /// memory changes in nothing but its privilege.
    pub open spec fn device_decided(
        self,
        mem: MemoryView,
        after: MemoryStage,
        mem_after: MemoryView,
        res: Result<(), ExecutionError>,
    ) -> bool {
        &&& mem_after == (MemoryView { privileged: self.latch_in_is_privileged, ..mem })
        &&& match res {
            Ok(_) => after == self.passed(after.latch_out_WB) && match self.latch_in_EX_OUT {
                EX_OUT::LoadFrom(_, _) => after.latch_out_WB is Value,
                _ => after.latch_out_WB is NoOutput,
            },
            Err(e) => after == self && e is MemError,
        }
    }
}

fn size_not_supported(size: u32) -> (e: ExecutionError)
    ensures
        e@ == unsupported_size(size),
{
    let mut s = String::from_str("Size is not supported: Size=");
    s.append(decimal(size as u64).as_str());
    ExecutionError::MemError(s)
}

impl PipelinedWithHeldMemory for MemoryStage {
    fn tick_with_mem(&mut self, mem: &mut Memory) -> (res: Result<(), ExecutionError>)
        ensures
            match old(self).ticked(old(mem)@) {
                Some(t) => {
                    &&& *final(self) == t.stage
                    &&& final(mem)@ == t.mem
                    &&& match t.error {
                        None => res is Ok,
                        Some(e) => res matches Err(x) && x@ == e,
                    }
                },
                None => old(self).device_decided(old(mem)@, *final(self), final(mem)@, res),
            },
    {
        mem.set_privileged(self.latch_in_is_privileged);
        match self.latch_in_EX_OUT {
            EX_OUT::LoadFrom(addr, size) => {
                if !(size == 1 || size == 2 || size == 4) {
                    return Err(size_not_supported(size));
                }
                match load_sized(mem, addr, size as usize) {
                    Ok(v) => {
                        self.latch_out_WB = EX_OUT::Value(v);
                    },
                    Err(e) => {
                        return Err(e);
                    },
                }
            },
            EX_OUT::StoreValue(word, addr, size) => {
                if !(size == 1 || size == 2 || size == 4) {
                    return Err(size_not_supported(size));
                }
                match store_sized(mem, word, addr, size as usize) {
                    Ok(_) => {
                        self.latch_out_WB = EX_OUT::NoOutput;
                    },
                    Err(e) => {
                        return Err(e);
                    },
                }
            },
            other => {
                self.latch_out_WB = other;
            },
        }
        self.latch_out_RDest = self.latch_in_RDest;
        self.latch_out_instruction_ID = self.latch_in_instruction_ID;
        Ok(())
    }
}

} // verus!
