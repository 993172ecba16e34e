use crate::access::{load_sized, loaded};
use crate::definitions::errors::{ExecutionError, ExecutionErrorView};
use crate::memory::{Memory, MemoryView};
use crate::pipeline::pipelined_with_held_memory::PipelinedWithHeldMemory;
use vstd::prelude::*;

verus! {

/// The fetch stage: it reads the instruction at its program counter and
/// hands it on, not yet decoded, with the address it was read at.
pub struct InstructionFetch {
    pub latch_out_new_pc: u32,
    /// The instruction word and the address it was fetched at.
    pub latch_out_IR: (u32, u32),
    pub latch_in_cond: bool,
    pub latch_in_new_pc: u32,
    pub latch_in_is_privileged: bool,
    pub control_in_stall: bool,
    pub pc: u32,
    pub verbose: bool,
}

/// What a tick of the fetch stage leaves.
pub struct FetchTick {
    pub stage: InstructionFetch,
    pub mem: MemoryView,
    pub error: Option<ExecutionErrorView>,
}

impl InstructionFetch {
    pub fn new(start_pc: u32, verbose: bool) -> (stage: InstructionFetch)
        ensures
            stage == (InstructionFetch {
                latch_out_new_pc: 0,
                latch_out_IR: (0u32, 0u32),
                latch_in_cond: false,
                latch_in_new_pc: 0,
                latch_in_is_privileged: false,
                control_in_stall: false,
                pc: start_pc,
                verbose,
            }),
    {
        InstructionFetch {
            latch_out_new_pc: 0,
            latch_out_IR: (0x00000000, 0x00000000),
            latch_in_cond: false,
            latch_in_new_pc: 0,
            latch_in_is_privileged: false,
            control_in_stall: false,
            pc: start_pc,
            verbose,
        }
    }

    /// Sets the address of the next fetch.
    pub fn set_pc(&mut self, new_pc: u32)
        ensures
            *final(self) == (InstructionFetch { pc: new_pc, ..*old(self) }),
    {
        self.pc = new_pc;
    }

    /// The address of the last fetch.
    pub fn get_pc(&mut self) -> (pc: u32)
        ensures
            pc == old(self).pc.wrapping_sub(4),
            *final(self) == *old(self),
    {
        self.pc.wrapping_sub(4)
    }

    /// The stage once a jump that is due has been taken.
    pub open spec fn redirected(self) -> InstructionFetch {
        InstructionFetch {
            pc: if self.latch_in_cond {
                self.latch_in_new_pc
            } else {
                self.pc
            },
            latch_in_cond: false,
            ..self
        }
    }

    /// What a tick leaves of the stage and of memory where a device answers
    /// the fetch with the word `code`: a jump that is due is taken, `code` is
    /// handed on with its address, and the program counter moves on by four.
    pub open spec fn handed(self, mem: MemoryView, code: u32) -> FetchTick {
        let s = self.redirected();
        FetchTick {
            stage: InstructionFetch {
                latch_out_IR: (code, s.pc),
                pc: s.pc.wrapping_add(4),
                latch_out_new_pc: s.pc.wrapping_add(4),
                ..s
            },
            mem: MemoryView { privileged: self.latch_in_is_privileged, ..mem },
            error: None,
        }
    }

    /// What a tick leaves of the stage and of memory, where no device
    /// decides it. Memory takes the stage's privilege. A stalled stage does
    /// no more than drop the stall. Else a jump that is due is taken, the
    /// word at the program counter is fetched and handed on with its
    /// address, and the program counter moves on by four. A fetch that
    /// fails leaves the output latches and the program counter as they were.
    pub open spec fn ticked(self, mem: MemoryView) -> Option<FetchTick> {
        let m = MemoryView { privileged: self.latch_in_is_privileged, ..mem };
        if self.control_in_stall {
            Some(
                FetchTick {
                    stage: InstructionFetch { control_in_stall: false, ..self },
                    mem: m,
                    error: None,
                },
            )
        } else {
            let s = self.redirected();
            match loaded(m, s.pc, 4) {
                Some((after, Ok(code))) => Some(
                    FetchTick {
                        stage: InstructionFetch {
                            latch_out_IR: (code, s.pc),
                            pc: s.pc.wrapping_add(4),
                            latch_out_new_pc: s.pc.wrapping_add(4),
                            ..s
                        },
                        mem: after,
                        error: None,
                    },
                ),
                Some((after, Err(e))) => Some(FetchTick { stage: s, mem: after, error: Some(e) }),
                None => None,
            }
        }
    }
}

impl PipelinedWithHeldMemory for InstructionFetch {
    fn tick_with_mem(&mut self, mem: &mut Memory) -> (res: Result<(), ExecutionError>)
        ensures
            match old(self).ticked(old(mem)@) {
                Some(t) => {
                    &&& *final(self) == t.stage
                    &&& final(mem)@ == t.mem
                    &&& match t.error {
                        None => res is Ok,
                        Some(e) => res matches Err(x) && x@ == e,
                    }
                },
                None => {
                    &&& final(mem)@ == (MemoryView {
                        privileged: old(self).latch_in_is_privileged,
                        ..old(mem)@
                    })
                    &&& res matches Err(e) ==> e is MemError && *final(self) == old(
                        self,
                    ).redirected()
                    &&& res is Ok ==> *final(self) == old(self).handed(
                        old(mem)@,
                        final(self).latch_out_IR.0,
                    ).stage
                },
            },
    {
        mem.set_privileged(self.latch_in_is_privileged);
        if self.control_in_stall {
            self.control_in_stall = false;
            return Ok(());
        }
        if self.latch_in_cond {
            self.pc = self.latch_in_new_pc;
        }
        self.latch_in_cond = false;
        let current_pc: u32 = self.pc;
        let code: u32 = match load_sized(mem, current_pc, 4) {
            Ok(code) => code,
            Err(e) => {
                return Err(e);
            },
        };
        self.latch_out_IR = (code, current_pc);
        self.pc = self.pc.wrapping_add(4);
        self.latch_out_new_pc = self.pc;
        Ok(())
    }
}

} // verus!
