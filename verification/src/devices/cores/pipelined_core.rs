use super::core_traits::{Privileged, Runnable};
use crate::definitions::arch::op::InstructionType;
use crate::definitions::arch::reg_names;
use crate::definitions::arch::{DEFAULT_IRQH, STACKSIZE};
use crate::definitions::errors::{ExecutionError, ExecutionErrorView, HeaderError, RegisterError};
use crate::definitions::stats::Stats;
use crate::devices::console;
use crate::devices::keyboard;
use crate::devices::registers::{
    Available, RegisterState, Registers, SuccessfulOwn, HI_IDENT, LO_IDENT,
};
use crate::devices::MemoryMapped;
use crate::loader::{too_large, verdict};
use crate::memory::{Memory, MemoryView};
use crate::pipeline::pipelined::Pipelined;
use crate::pipeline::pipelined_with_held_memory::PipelinedWithHeldMemory;
use crate::pipeline::stages::execution::{Execution, EX_OUT};
use crate::pipeline::stages::instruction_decode::{DecodeView, InstructionDecode, ReleaseBcast};
use crate::pipeline::stages::instruction_fetch::{FetchTick, InstructionFetch};
use crate::pipeline::stages::memory_stage::{MemoryStage, MemoryTick};
use crate::pipeline::stages::write_back::WriteBack;
use vstd::prelude::*;
use vstd::string::StringExecFns;

verus! {

/// The number of stages of the pipeline.
pub const DEPTH: usize = 5;

/// The pipelined core: five stages, the memory that two of them work on,
/// and the control that ties them together every cycle.
pub struct Core {
    pub IF: InstructionFetch,
    pub ID: InstructionDecode,
    pub EX: Execution,
    pub MEM: MemoryStage,
    pub held_mem: Memory,
    pub WB: WriteBack,
    pub verbose: bool,
}

/// The pipelined core, with its registers and its memory as their views.
pub struct PipelineView {
    pub fetch: InstructionFetch,
    pub decode: DecodeView,
    pub execute: Execution,
    pub memory: MemoryStage,
    pub write_back: WriteBack,
    pub mem: MemoryView,
    /// Whether tracing was asked for when the core was made.
    pub verbose: bool,
}

impl View for Core {
    type V = PipelineView;

    open spec fn view(&self) -> PipelineView {
        PipelineView {
            fetch: self.IF,
            decode: self.ID@,
            execute: self.EX,
            memory: self.MEM,
            write_back: self.WB,
            mem: self.held_mem@,
            verbose: self.verbose,
        }
    }
}

/// How a cycle ended.
pub struct Cycled {
    pub state: PipelineView,
    /// The error that stopped the cycle, if one did.
    pub error: Option<ExecutionErrorView>,
    /// Whether the cycle counts as an instruction: the execute stage
    /// neither waited nor jumped.
    pub counted: bool,
}

pub open spec fn not_ready(stage: Seq<char>) -> ExecutionErrorView {
    ExecutionErrorView::RegisterError(
        "The latches of the "@ + stage + " stage hold what it cannot work on"@,
    )
}

/// A destination once the instruction `id` has let go of the register `regno`.
pub open spec fn freed_destination(
    dest: Option<Result<SuccessfulOwn, RegisterError>>,
    id: usize,
    regno: u32,
) -> Option<Result<SuccessfulOwn, RegisterError>> {
    match dest {
        Some(Err(RegisterError::LockedWithHandle(owner, r))) => if owner == id && r == regno {
            Some(Ok(SuccessfulOwn { register_number: regno }))
        } else {
            dest
        },
        _ => dest,
    }
}

/// An operand once the instruction `id` has written `value` to the
/// register `regno` and let go of it.
pub open spec fn freed_operand(
    operand: Option<Result<Available, RegisterError>>,
    id: usize,
    regno: u32,
    value: u32,
) -> Option<Result<Available, RegisterError>> {
    match operand {
        Some(Err(RegisterError::LockedWithHandle(owner, r))) => if owner == id && r == regno {
            Some(Ok(Available { value }))
        } else {
            operand
        },
        _ => operand,
    }
}

/// What waits once the instruction `id` has let go of the register `regno`.
pub open spec fn freed_wait(out: EX_OUT, id: usize, regno: u32) -> EX_OUT {
    match out {
        EX_OUT::AwaitingLock(a, b) => if a == Some((id, regno)) || b == Some((id, regno)) {
            EX_OUT::NoOutput
        } else {
            out
        },
        _ => out,
    }
}

impl PipelineView {
    pub open spec fn failed(self, e: ExecutionErrorView) -> Cycled {
        Cycled { state: self, error: Some(e), counted: false }
    }

    /// The core after every destination that waits for the register `regno`
    /// of the instruction `id` has learnt that it was let go.
    pub open spec fn destinations_freed(self, id: usize, regno: u32) -> PipelineView {
        PipelineView {
            write_back: WriteBack {
                latch_in_RDest: freed_destination(self.write_back.latch_in_RDest, id, regno),
                latch_in_WB: freed_wait(self.write_back.latch_in_WB, id, regno),
                ..self.write_back
            },
            memory: MemoryStage {
                latch_in_RDest: freed_destination(self.memory.latch_in_RDest, id, regno),
                ..self.memory
            },
            execute: Execution {
                latch_in_RDest: freed_destination(self.execute.latch_in_RDest, id, regno),
                ..self.execute
            },
            decode: DecodeView {
                latch_out_RDest: freed_destination(self.decode.latch_out_RDest, id, regno),
                ..self.decode
            },
            ..self
        }
    }

    /// The core after the broadcast of the decode stage has reached every
    /// latch that an instruction in flight stands on, the output latches of
    /// the decode stage among them: operands and destinations that waited
    /// for a register that was released wait no more.
    pub open spec fn resolved(self) -> PipelineView {
        match self.decode.control_out_reg_release_bcast {
            ReleaseBcast::NoRelease => self,
            ReleaseBcast::Freed(id, regno) => self.destinations_freed(id, regno),
            ReleaseBcast::FreedWithContent(id, regno, v) => {
                let s = PipelineView {
                    execute: Execution {
                        latch_in_A: freed_operand(self.execute.latch_in_A, id, regno, v),
                        latch_in_B: freed_operand(self.execute.latch_in_B, id, regno, v),
                        ..self.execute
                    },
                    decode: DecodeView {
                        latch_out_A: freed_operand(self.decode.latch_out_A, id, regno, v),
                        latch_out_B: freed_operand(self.decode.latch_out_B, id, regno, v),
                        ..self.decode
                    },
                    ..self
                };
                s.destinations_freed(id, regno)
            },
            ReleaseBcast::FreedWithContentDouble(id, _, _) => self.destinations_freed(
                id,
                HI_IDENT,
            ).destinations_freed(id, LO_IDENT),
        }
    }

    /// Whether the execute stage waits for a register.
    pub open spec fn stalls(self) -> bool {
        self.execute.latch_out_EX_OUT is AwaitingLock
    }

    /// The core after the control has looked at what the execute stage
    /// hands on: where it waits, the fetch and the decode stage are stalled;
    /// where it jumps, the fetch stage learns the target.
    pub open spec fn controlled(self) -> PipelineView {
        match self.execute.latch_out_EX_OUT {
            EX_OUT::AwaitingLock(_, _) => PipelineView {
                fetch: InstructionFetch { control_in_stall: true, ..self.fetch },
                decode: DecodeView { control_in_stall: true, ..self.decode },
                ..self
            },
            EX_OUT::DoJump(target) => PipelineView {
                fetch: InstructionFetch { latch_in_new_pc: target, ..self.fetch },
                ..self
            },
            EX_OUT::DoJumpWithRA(target, _) => PipelineView {
                fetch: InstructionFetch { latch_in_new_pc: target, ..self.fetch },
                ..self
            },
            _ => self,
        }
    }

    /// The core after every stage before the memory stage has handed its
    /// outputs on, and the fetch stage has learnt the privilege and whether
    /// to jump. Where the execute stage waits, the stages before it keep
    /// what they have and the memory stage gets nothing.
    pub open spec fn handed_forward(self) -> PipelineView {
        let stall = self.stalls();
        PipelineView {
            fetch: InstructionFetch {
                latch_in_is_privileged: self.execute.latch_out_is_privileged,
                latch_in_cond: self.execute.latch_out_cond,
                ..self.fetch
            },
            decode: if stall {
                self.decode
            } else {
                DecodeView {
                    latch_in_new_pc: self.fetch.latch_out_new_pc,
                    latch_in_IR: self.fetch.latch_out_IR,
                    ..self.decode
                }
            },
            execute: if stall {
                Execution {
                    latch_in_instruction_ID: self.execute.latch_out_instruction_ID,
                    ..self.execute
                }
            } else {
                Execution {
                    latch_in_RDest: self.decode.latch_out_RDest,
                    latch_in_new_pc: self.decode.latch_out_new_pc,
                    latch_in_A: self.decode.latch_out_A,
                    latch_in_B: self.decode.latch_out_B,
                    latch_in_I: self.decode.latch_out_I,
                    latch_in_instruction_ID: self.decode.latch_out_instruction_ID,
                    control_in_EXOP: self.decode.control_out_EXOP,
                    ..self.execute
                }
            },
            memory: if stall {
                MemoryStage {
                    latch_in_RDest: None,
                    latch_in_EX_OUT: EX_OUT::NoOutput,
                    ..self.memory
                }
            } else {
                MemoryStage {
                    latch_in_is_privileged: self.execute.latch_out_is_privileged,
                    latch_in_instruction_ID: self.execute.latch_out_instruction_ID,
                    latch_in_RDest: self.execute.latch_out_RDest,
                    latch_in_EX_OUT: self.execute.latch_out_EX_OUT,
                    ..self.memory
                }
            },
            ..self
        }
    }

    /// The core after a jump has dropped what the stages before the
    /// execute stage had handed on: the decode stage gets no instruction,
    /// the execute stage gets none either, and the instruction that was on
    /// its way to the execute stage is struck from the scoreboard.
    pub open spec fn flushed(self) -> PipelineView {
        if self.execute.latch_out_cond {
            PipelineView {
                decode: DecodeView {
                    latch_in_new_pc: 0,
                    latch_in_IR: (0u32, 0u32),
                    regs: Seq::new(
                        crate::devices::registers::SLOTS as nat,
                        |i: int| self.decode.regs[i].without(self.execute.latch_in_instruction_ID),
                    ),
                    ..self.decode
                },
                execute: Execution {
                    control_in_EXOP: (InstructionType::Special, 0u32, 0u32),
                    latch_in_A: None,
                    latch_in_B: None,
                    latch_in_I: None,
                    latch_in_RDest: None,
                    latch_in_instruction_ID: 0,
                    ..self.execute
                },
                ..self
            }
        } else {
            self
        }
    }

    /// The core after the memory stage has handed its outputs on to the
    /// write-back stage, and the write-back stage its own to the decode stage.
    pub open spec fn handed_back(self) -> PipelineView {
        PipelineView {
            write_back: WriteBack {
                latch_in_WB: self.memory.latch_out_WB,
                latch_in_RDest: self.memory.latch_out_RDest,
                latch_in_instruction_ID: self.memory.latch_out_instruction_ID,
                ..self.write_back
            },
            decode: DecodeView {
                latch_in_WB_contents: self.write_back.latch_out_WB_contents,
                latch_in_RDest: self.write_back.latch_out_RDest,
                latch_in_instruction_ID: self.write_back.latch_out_instruction_ID,
                ..self.decode
            },
            ..self
        }
    }

    /// The core after the latches have been handed on from stage to stage.
    pub open spec fn propagated(self) -> PipelineView {
        self.handed_forward().flushed().handed_back()
    }

    /// The core in the middle of a cycle, when the fetch stage has left
    /// `f`, the decode stage has ticked and the broadcast is resolved; or the
    /// end of the cycle, where one of the two stages fails or the decode
    /// stage cannot work on its latches.
    pub open spec fn through_decode(self, f: FetchTick) -> Result<PipelineView, Cycled> {
        let s1 = PipelineView { fetch: f.stage, mem: f.mem, ..self };
        if f.error is Some {
            Err(s1.failed(f.error->0))
        } else if !ready_to_decode(s1.decode) {
            Err(s1.failed(not_ready("decode"@)))
        } else {
            let (d, e) = s1.decode.ticked();
            let s2 = PipelineView { decode: d, ..s1 };
            if e is Some {
                Err(s2.failed(e->0))
            } else {
                Ok(s2.resolved())
            }
        }
    }

    /// The core when the execute stage has ticked; or the end of the
    /// cycle, where the stage fails or cannot work on its latches.
    pub open spec fn through_execute(self) -> Result<PipelineView, Cycled> {
        if !self.execute.ready() {
            Err(self.failed(not_ready("execute"@)))
        } else {
            let (x, e) = self.execute.ticked();
            let s3 = PipelineView { execute: x, ..self };
            if e is Some {
                Err(s3.failed(e->0))
            } else {
                Ok(s3)
            }
        }
    }

    /// The end of the cycle when the memory stage has left `m`: the
    /// write-back stage ticks, the control looks at what the execute stage
    /// hands on, and the latches are handed on; unless the memory stage
    /// failed or the write-back stage cannot work on its latches.
    pub open spec fn after_memory(self, m: MemoryTick) -> Cycled {
        let s4 = PipelineView { memory: m.stage, mem: m.mem, ..self };
        if m.error is Some {
            s4.failed(m.error->0)
        } else if !s4.write_back.ready() {
            s4.failed(not_ready("write-back"@))
        } else {
            let s5 = PipelineView { write_back: s4.write_back.ticked(), ..s4 };
            Cycled {
                state: s5.controlled().propagated(),
                error: None,
                counted: !s5.stalls() && !s5.execute.latch_out_cond,
            }
        }
    }

    /// The rest of a cycle, from the tick of the execute stage on, where
    /// no device decides it.
    pub open spec fn executed(self) -> Option<Cycled> {
        match self.through_execute() {
            Err(end) => Some(end),
            Ok(s3) => match s3.memory.ticked(s3.mem) {
                None => None,
                Some(m) => Some(s3.after_memory(m)),
            },
        }
    }

    /// The outcome of one cycle, where no device decides it: the fetch and
    /// the decode stage tick, the broadcast is resolved, the execute, the
    /// memory and the write-back stage tick, the control looks at what the
    /// execute stage hands on, and the latches are handed on. A stage that
    /// fails, or that cannot work on its latches, ends the cycle.
    #[verifier::opaque]
    pub open spec fn cycled(self) -> Option<Cycled> {
        match self.fetch.ticked(self.mem) {
            None => None,
            Some(f) => match self.through_decode(f) {
                Err(end) => Some(end),
                Ok(s2) => s2.executed(),
            },
        }
    }

    /// What a device may leave of the rest of a cycle, from the tick of the
    /// memory stage on, where it decides the load or the store of that
    /// stage. Either the access fails, and the cycle ends on it; or a load
    /// puts some word on the output of the memory stage, a store puts
    /// nothing there, and the cycle ends as it does after such a tick.
    pub open spec fn device_ended(self, after: PipelineView, res: Result<bool, ExecutionError>) -> bool {
        let mem = MemoryView { privileged: self.memory.latch_in_is_privileged, ..self.mem };
        ||| {
            &&& res matches Err(e)
            &&& e is MemError
            &&& after == (PipelineView { mem, ..self })
        }
        ||| exists|out: EX_OUT|
            {
                &&& out is Value || out is NoOutput
                &&& ended(
                    res,
                    after,
                    #[trigger] self.after_memory(
                        MemoryTick { stage: self.memory.passed(out), mem, error: None },
                    ),
                )
            }
    }

    /// Whether the fetch stage, having left `f`, and the decode stage may
    /// leave the state `after` and the result `res` in the middle of a cycle.
    pub open spec fn decodes_to(
        self,
        f: FetchTick,
        after: PipelineView,
        res: Result<(), ExecutionError>,
    ) -> bool {
        match self.through_decode(f) {
            Ok(s2) => res is Ok && after == s2,
            Err(end) => {
                &&& after == end.state
                &&& res matches Err(x)
                &&& Some(x@) == end.error
            },
        }
    }

    /// Whether a cycle in which the fetch stage has left `f` may end in
    /// the state `after` with the result `res`: the other stages do their
    /// work as in any cycle, and where a device decides the load or the
    /// store of the memory stage, the cycle ends as `device_ended` allows.
    pub open spec fn goes_on_to(
        self,
        f: FetchTick,
        after: PipelineView,
        res: Result<bool, ExecutionError>,
    ) -> bool {
        match self.through_decode(f) {
            Err(end) => ended(res, after, end),
            Ok(s2) => match s2.through_execute() {
                Err(end) => ended(res, after, end),
                Ok(s3) => match s3.memory.ticked(s3.mem) {
                    Some(m) => ended(res, after, s3.after_memory(m)),
                    None => s3.device_ended(after, res),
                },
            },
        }
    }

    /// The core after a fetch that a device has refused: memory has taken
    /// the privilege of the fetch stage, and a jump that was due is taken.
    pub open spec fn fetch_refused(self) -> PipelineView {
        PipelineView {
            fetch: self.fetch.redirected(),
            mem: MemoryView { privileged: self.fetch.latch_in_is_privileged, ..self.mem },
            ..self
        }
    }

    /// What a device may leave of a cycle.
    ///
    /// Where the instruction comes from memory, the cycle goes on from that
    /// fetch, and a device decides the load or the store of the memory stage.
    /// Where the instruction itself is fetched from a device, either the
    /// fetch fails, with an error of memory, and the cycle ends on it; or
    /// the device hands out some word, and the cycle goes on as from a fetch
    /// of that word.
    #[verifier::opaque]
    pub open spec fn device_cycled(
        self,
        after: PipelineView,
        res: Result<bool, ExecutionError>,
    ) -> bool {
        match self.fetch.ticked(self.mem) {
            Some(f) => self.goes_on_to(f, after, res),
            None => {
                ||| (after == self.fetch_refused() && (res matches Err(e) && e is MemError))
                ||| exists|code: u32|
                    self.goes_on_to(#[trigger] self.fetch.handed(self.mem, code), after, res)
            },
        }
    }
}

impl PipelineView {
    /// Whether one cycle may lead from this state to the state `after`
    /// with the result `res`: as `cycled` says where no device decides the
    /// cycle, and as `device_cycled` allows where one does.
    #[verifier::opaque]
    pub open spec fn cycles_to(self, after: PipelineView, res: Result<bool, ExecutionError>) -> bool {
        match self.cycled() {
            Some(c) => ended(res, after, c),
            None => self.device_cycled(after, res),
        }
    }

    /// Whether a run of cycles may lead from this state to the state
    /// `after`, in as many cycles and with as many of them counted as
    /// instructions as are given.
    pub open spec fn runs_to(self, after: PipelineView, cycles: nat, instructions: nat) -> bool {
        exists|laps: Seq<Lap>|
            {
                &&& #[trigger] is_run(laps)
                &&& laps.len() == cycles + 1
                &&& laps[0] == (Lap { state: self, instructions: 0 })
                &&& laps.last() == (Lap { state: after, instructions })
            }
    }
}

/// A state between two cycles of a run, and the number of cycles before it
/// that count as instructions.
pub struct Lap {
    pub state: PipelineView,
    pub instructions: nat,
}

/// Whether `laps` is a run: a cycle that succeeds leads from every state
/// of it to the next, it counts as an instruction exactly where the count
/// goes up, by one, and termination is asked for in none of its states
/// but, possibly, the last.
#[verifier::opaque]
pub open spec fn is_run(laps: Seq<Lap>) -> bool {
    &&& laps.len() > 0
    &&& forall|i: int|
        #![trigger laps[i]]
        0 <= i < laps.len() - 1 ==> {
            &&& !laps[i].state.execute.control_out_termination
            &&& laps[i].instructions <= laps[i + 1].instructions <= laps[i].instructions + 1
            &&& laps[i].state.cycles_to(
                laps[i + 1].state,
                Ok(laps[i + 1].instructions > laps[i].instructions),
            )
        }
}

/// A state alone is a run of no cycle.
pub proof fn lemma_run_starts(s: PipelineView)
    ensures
        is_run(seq![Lap { state: s, instructions: 0 }]),
{
    reveal(is_run);
}

/// A run goes on by one cycle: if `laps` is a run in whose last state
/// termination is not asked for, and a cycle leads from there to `next`,
/// counted as an instruction or not, then `laps` with `next` is a run.
pub proof fn lemma_run_goes_on(laps: Seq<Lap>, next: PipelineView, counted: bool)
    requires
        is_run(laps),
        !laps.last().state.execute.control_out_termination,
        laps.last().state.cycles_to(next, Ok(counted)),
    ensures
        is_run(
            laps.push(
                Lap {
                    state: next,
                    instructions: laps.last().instructions + if counted {
                        1nat
                    } else {
                        0nat
                    },
                },
            ),
        ),
{
    reveal(is_run);
    let lap = Lap {
        state: next,
        instructions: laps.last().instructions + if counted {
            1nat
        } else {
            0nat
        },
    };
    let longer = laps.push(lap);
    assert forall|i: int| 0 <= i < longer.len() - 1 implies {
        &&& !(#[trigger] longer[i]).state.execute.control_out_termination
        &&& longer[i].instructions <= longer[i + 1].instructions <= longer[i].instructions + 1
        &&& longer[i].state.cycles_to(
            longer[i + 1].state,
            Ok(longer[i + 1].instructions > longer[i].instructions),
        )
    } by {
        if i < laps.len() - 1 {
            assert(longer[i] == laps[i] && longer[i + 1] == laps[i + 1]);
        } else {
            assert(longer[i] == laps.last() && longer[i + 1] == lap);
        }
    }
}

/// Whether the result `res` and the state `after` are what the end `c` of a
/// cycle asks for.
pub open spec fn ended(res: Result<bool, ExecutionError>, after: PipelineView, c: Cycled) -> bool {
    &&& after == c.state
    &&& match c.error {
        None => res == Ok::<bool, ExecutionError>(c.counted),
        Some(e) => res matches Err(x) && x@ == e,
    }
}

/// How a run ended.
pub struct PipelineRun {
    pub state: PipelineView,
    /// The error that stopped the run, if one did.
    pub error: Option<ExecutionErrorView>,
    /// Whether the core has halted.
    pub finished: bool,
    /// The number of cycles that were run.
    pub cycles: nat,
    /// The number of those cycles that count as instructions.
    pub instructions: nat,
}

/// The outcome `r` with one more cycle before it.
pub open spec fn after_cycle(r: Option<PipelineRun>, counted: bool) -> Option<PipelineRun> {
    match r {
        Some(r) => Some(
            PipelineRun {
                cycles: r.cycles + 1,
                instructions: r.instructions + if counted {
                    1nat
                } else {
                    0nat
                },
                ..r
            },
        ),
        None => None,
    }
}

/// The outcome `r` with `cycles` more cycles and `instructions` more
/// instructions before it.
pub open spec fn after_cycles(r: Option<PipelineRun>, cycles: nat, instructions: nat) -> Option<
    PipelineRun,
> {
    match r {
        Some(r) => Some(
            PipelineRun {
                cycles: r.cycles + cycles,
                instructions: r.instructions + instructions,
                ..r
            },
        ),
        None => None,
    }
}

impl PipelineView {
    /// The outcome of a run of at most `fuel` cycles, where no device
    /// decides any of them: the run ends when the execute stage has asked
    /// for termination, with the cycle that fails, or when the fuel is spent.
    pub open spec fn ran(self, fuel: nat) -> Option<PipelineRun>
        decreases fuel,
    {
        if self.execute.control_out_termination {
            Some(
                PipelineRun { state: self, error: None, finished: true, cycles: 0, instructions: 0 },
            )
        } else if fuel == 0 {
            Some(
                PipelineRun {
                    state: self,
                    error: None,
                    finished: false,
                    cycles: 0,
                    instructions: 0,
                },
            )
        } else {
            match self.cycled() {
                None => None,
                Some(c) => if c.error is Some {
                    Some(
                        PipelineRun {
                            state: c.state,
                            error: c.error,
                            finished: false,
                            cycles: 0,
                            instructions: 0,
                        },
                    )
                } else {
                    after_cycle(c.state.ran((fuel - 1) as nat), c.counted)
                },
            }
        }
    }
}

/// Whether the decode stage can work on what is on its input latches,
/// given that its registers are those of a scoreboard.
pub open spec fn ready_to_decode(d: DecodeView) -> bool {
    match d.latch_in_WB_contents {
        EX_OUT::AwaitingLock(_, _) => false,
        EX_OUT::Value(_) => d.latch_in_RDest matches Some(own) && crate::devices::registers::is_register(
            own.register_number,
        ),
        EX_OUT::Move(source, destination) => crate::devices::registers::is_register(destination)
            && (destination == HI_IDENT || destination == LO_IDENT || source == HI_IDENT || source
            == LO_IDENT),
        _ => true,
    }
}

fn stage_not_ready(stage: &str) -> (e: ExecutionError)
    ensures
        e@ == not_ready(stage@),
{
    let mut s = String::from_str("The latches of the ");
    s.append(stage);
    s.append(" stage hold what it cannot work on");
    ExecutionError::RegisterError(s)
}

fn free_destination(
    dest: Option<Result<SuccessfulOwn, RegisterError>>,
    id: usize,
    regno: u32,
) -> (res: Option<Result<SuccessfulOwn, RegisterError>>)
    ensures
        res == freed_destination(dest, id, regno),
{
    match dest {
        Some(Err(RegisterError::LockedWithHandle(owner, r))) => if owner == id && r == regno {
            Some(Ok(SuccessfulOwn { register_number: regno }))
        } else {
            dest
        },
        _ => dest,
    }
}

fn free_operand(
    operand: Option<Result<Available, RegisterError>>,
    id: usize,
    regno: u32,
    value: u32,
) -> (res: Option<Result<Available, RegisterError>>)
    ensures
        res == freed_operand(operand, id, regno, value),
{
    match operand {
        Some(Err(RegisterError::LockedWithHandle(owner, r))) => if owner == id && r == regno {
            Some(Ok(Available { value }))
        } else {
            operand
        },
        _ => operand,
    }
}

fn names(lock: Option<(usize, u32)>, id: usize, regno: u32) -> (res: bool)
    ensures
        res == (lock == Some((id, regno))),
{
    match lock {
        Some((owner, r)) => owner == id && r == regno,
        None => false,
    }
}

fn free_wait(out: EX_OUT, id: usize, regno: u32) -> (res: EX_OUT)
    ensures
        res == freed_wait(out, id, regno),
{
    match out {
        EX_OUT::AwaitingLock(a, b) => if names(a, id, regno) || names(b, id, regno) {
            EX_OUT::NoOutput
        } else {
            out
        },
        _ => out,
    }
}

impl Core {
    /// Whether the registers of the core are those of a scoreboard.
    pub open spec fn wf(&self) -> bool {
        self.ID.regs.wf()
    }

    /// Makes a core with the console and the keyboard of the default layout.
    pub fn new(verbose: bool) -> (core: Core)
        ensures
            core.wf(),
            core@ == initial(verbose),
    {
        Core::with_devices(verbose, Box::new(console::new()), Box::new(keyboard::new()))
    }

    /// Makes a core: the default handler stands at address 0 and is
    /// protected, the stack follows it and is protected, SP holds the base
    /// of the stack, `console` and `keyboard` are mapped at their default
    /// addresses, and every stage is empty.
    pub fn with_devices(
        verbose: bool,
        console: Box<dyn MemoryMapped>,
        keyboard: Box<dyn MemoryMapped>,
    ) -> (core: Core)
        ensures
            core.wf(),
            core@ == initial(verbose),
    {
        let mut regs = Registers::new(verbose);
        let mut held_mem = Memory::new(verbose);
        held_mem.set_privileged(true);
        let handler = DEFAULT_IRQH;
        let irq_handler_addr: u32 = 0;
        let stackbase: u32 = 180;
        let stored = held_mem.store(irq_handler_addr as usize, 172, handler.as_slice());
        assert(held_mem@.bytes =~= DEFAULT_IRQH@);
        held_mem.protect(irq_handler_addr, stackbase - 4);
        held_mem.protect(stackbase, stackbase + STACKSIZE);
        let locked = regs.lock_for_write(reg_names::SP as u32, 0);
        let written = regs.write_and_unlock(reg_names::SP as u32, stackbase, 0);
        held_mem.set_privileged(false);
        held_mem.map_device(0x80000000, 0x80000007, console);
        held_mem.map_device(0x80000008, 0x8000000f, keyboard);
        assert(regs@ =~= initial(verbose).decode.regs);
        assert(held_mem@.protected =~= initial(verbose).mem.protected);
        assert(held_mem@.devices =~= initial(verbose).mem.devices);
        Core {
            IF: InstructionFetch::new(0, verbose),
            ID: InstructionDecode::new(regs, verbose),
            EX: Execution::new(irq_handler_addr, verbose),
            MEM: MemoryStage::new(verbose),
            held_mem,
            WB: WriteBack::new(verbose),
            verbose,
        }
    }

    /// Lets the stages know what the decode stage has released.
    fn resolve(&mut self)
        ensures
            final(self)@ == old(self)@.resolved(),
            final(self).ID.regs == old(self).ID.regs,
            final(self).held_mem == old(self).held_mem,
    {
        match self.ID.control_out_reg_release_bcast {
            ReleaseBcast::NoRelease => {},
            ReleaseBcast::Freed(id, regno) => {
                self.free_destinations(id, regno);
            },
            ReleaseBcast::FreedWithContent(id, regno, v) => {
                self.EX.latch_in_A = free_operand(self.EX.latch_in_A, id, regno, v);
                self.EX.latch_in_B = free_operand(self.EX.latch_in_B, id, regno, v);
                self.ID.latch_out_A = free_operand(self.ID.latch_out_A, id, regno, v);
                self.ID.latch_out_B = free_operand(self.ID.latch_out_B, id, regno, v);
                self.free_destinations(id, regno);
            },
            ReleaseBcast::FreedWithContentDouble(id, _hi, _lo) => {
                self.free_destinations(id, HI_IDENT);
                self.free_destinations(id, LO_IDENT);
            },
        }
    }

    fn free_destinations(&mut self, id: usize, regno: u32)
        ensures
            final(self)@ == old(self)@.destinations_freed(id, regno),
            final(self).ID.regs == old(self).ID.regs,
            final(self).held_mem == old(self).held_mem,
    {
        self.WB.latch_in_RDest = free_destination(self.WB.latch_in_RDest, id, regno);
        self.MEM.latch_in_RDest = free_destination(self.MEM.latch_in_RDest, id, regno);
        self.EX.latch_in_RDest = free_destination(self.EX.latch_in_RDest, id, regno);
        self.ID.latch_out_RDest = free_destination(self.ID.latch_out_RDest, id, regno);
        self.WB.latch_in_WB = free_wait(self.WB.latch_in_WB, id, regno);
    }

    /// Stalls the stages before the execute stage where it waits, and hands
    /// the target of a jump to the fetch stage.
    fn control(&mut self) -> (stall: bool)
        ensures
            final(self)@ == old(self)@.controlled(),
            stall == old(self)@.stalls(),
            final(self).ID.regs == old(self).ID.regs,
            final(self).held_mem == old(self).held_mem,
    {
        match self.EX.latch_out_EX_OUT {
            EX_OUT::AwaitingLock(_, _) => {
                self.ID.control_in_stall = true;
                self.IF.control_in_stall = true;
                true
            },
            EX_OUT::DoJump(jtarg) => {
                self.IF.latch_in_new_pc = jtarg;
                false
            },
            EX_OUT::DoJumpWithRA(jtarg, _) => {
                self.IF.latch_in_new_pc = jtarg;
                false
            },
            _ => false,
        }
    }

    fn hand_forward(&mut self, stall: bool)
        requires
            stall == old(self)@.stalls(),
        ensures
            final(self)@ == old(self)@.handed_forward(),
            final(self).ID.regs == old(self).ID.regs,
            final(self).held_mem == old(self).held_mem,
    {
        if !stall {
            self.ID.latch_in_new_pc = self.IF.latch_out_new_pc;
            self.ID.latch_in_IR = self.IF.latch_out_IR;
            self.EX.latch_in_RDest = self.ID.latch_out_RDest;
            self.EX.latch_in_new_pc = self.ID.latch_out_new_pc;
            self.EX.latch_in_A = self.ID.latch_out_A;
            self.EX.latch_in_B = self.ID.latch_out_B;
            self.EX.latch_in_I = self.ID.latch_out_I;
            self.EX.latch_in_instruction_ID = self.ID.latch_out_instruction_ID;
            self.EX.control_in_EXOP = self.ID.control_out_EXOP;
            self.MEM.latch_in_is_privileged = self.EX.latch_out_is_privileged;
            self.MEM.latch_in_instruction_ID = self.EX.latch_out_instruction_ID;
            self.MEM.latch_in_RDest = self.EX.latch_out_RDest;
            self.MEM.latch_in_EX_OUT = self.EX.latch_out_EX_OUT;
        } else {
            self.EX.latch_in_instruction_ID = self.EX.latch_out_instruction_ID;
            self.MEM.latch_in_RDest = None;
            self.MEM.latch_in_EX_OUT = EX_OUT::NoOutput;
        }
        self.IF.latch_in_is_privileged = self.EX.latch_out_is_privileged;
        self.IF.latch_in_cond = self.EX.latch_out_cond;
    }

    fn flush(&mut self)
        requires
            old(self).wf(),
        ensures
            final(self).wf(),
            final(self)@ == old(self)@.flushed(),
            final(self).held_mem == old(self).held_mem,
    {
        if self.EX.latch_out_cond {
            self.ID.latch_in_new_pc = 0;
            self.ID.latch_in_IR = (0, 0);
            self.EX.control_in_EXOP = (InstructionType::Special, 0, 0);
            self.EX.latch_in_A = None;
            self.EX.latch_in_B = None;
            self.EX.latch_in_I = None;
            self.EX.latch_in_RDest = None;
            self.ID.regs.delist_owner(self.EX.latch_in_instruction_ID);
            self.EX.latch_in_instruction_ID = 0;
        }
    }

    fn hand_back(&mut self)
        ensures
            final(self)@ == old(self)@.handed_back(),
            final(self).ID.regs == old(self).ID.regs,
            final(self).held_mem == old(self).held_mem,
    {
        self.WB.latch_in_WB = self.MEM.latch_out_WB;
        self.WB.latch_in_RDest = self.MEM.latch_out_RDest;
        self.WB.latch_in_instruction_ID = self.MEM.latch_out_instruction_ID;
        self.ID.latch_in_WB_contents = self.WB.latch_out_WB_contents;
        self.ID.latch_in_RDest = self.WB.latch_out_RDest;
        self.ID.latch_in_instruction_ID = self.WB.latch_out_instruction_ID;
    }

    /// Hands the latches on from stage to stage.
    fn propagate(&mut self, stall: bool)
        requires
            old(self).wf(),
            stall == old(self)@.stalls(),
        ensures
            final(self).wf(),
            final(self)@ == old(self)@.propagated(),
            final(self).held_mem == old(self).held_mem,
    {
        self.hand_forward(stall);
        self.flush();
        self.hand_back();
    }

    /// Ticks the fetch and the decode stage and resolves the broadcast.
    fn tick_front(&mut self) -> (res: Result<(), ExecutionError>)
        requires
            old(self).wf(),
        ensures
            final(self).wf(),
            match old(self)@.fetch.ticked(old(self)@.mem) {
                Some(f) => old(self)@.decodes_to(f, final(self)@, res),
                None => {
                    ||| (final(self)@ == old(self)@.fetch_refused() && (res matches Err(e)
                        && e is MemError))
                    ||| old(self)@.decodes_to(
                        old(self)@.fetch.handed(old(self)@.mem, final(self).IF.latch_out_IR.0),
                        final(self)@,
                        res,
                    )
                },
            },
    {
        match self.IF.tick_with_mem(&mut self.held_mem) {
            Ok(_) => {},
            Err(e) => {
                return Err(e);
            },
        }
        let ghost f = match old(self)@.fetch.ticked(old(self)@.mem) {
            Some(f) => f,
            None => old(self)@.fetch.handed(old(self)@.mem, self.IF.latch_out_IR.0),
        };
        if !self.ID.is_ready() {
            let res = Err(stage_not_ready("decode"));
            assert(old(self)@.decodes_to(f, self@, res));
            return res;
        }
        match self.ID.tick() {
            Ok(_) => {},
            Err(e) => {
                let res = Err(e);
                assert(old(self)@.decodes_to(f, self@, res));
                return res;
            },
        }
        self.resolve();
        assert(old(self)@.decodes_to(f, self@, Ok(())));
        Ok(())
    }

    /// Ticks the execute stage.
    fn tick_execute(&mut self) -> (res: Result<(), ExecutionError>)
        ensures
            final(self).ID.regs == old(self).ID.regs,
            match old(self)@.through_execute() {
                Ok(s3) => res is Ok && final(self)@ == s3,
                Err(end) => {
                    &&& final(self)@ == end.state
                    &&& res matches Err(x)
                    &&& Some(x@) == end.error
                },
            },
    {
        if !self.EX.is_ready() {
            return Err(stage_not_ready("execute"));
        }
        self.EX.tick()
    }

    /// Ticks the memory and the write-back stage, lets the control look at
    /// what the execute stage hands on, and hands the latches on.
    fn tick_back(&mut self) -> (res: Result<bool, ExecutionError>)
        requires
            old(self).wf(),
        ensures
            final(self).wf(),
            match old(self)@.memory.ticked(old(self)@.mem) {
                Some(m) => ended(res, final(self)@, old(self)@.after_memory(m)),
                None => old(self)@.device_ended(final(self)@, res),
            },
    {
        match self.MEM.tick_with_mem(&mut self.held_mem) {
            Ok(_) => {},
            Err(e) => {
                return Err(e);
            },
        }
        let ghost ticked = MemoryTick { stage: self.MEM, mem: self.held_mem@, error: None };
        let ghost end = old(self)@.after_memory(ticked);
        if !self.WB.is_ready() {
            let res = Err(stage_not_ready("write-back"));
            assert(ended(res, self@, end));
            return res;
        }
        match self.WB.tick() {
            Ok(_) => {},
            Err(e) => {
                return Err(e);
            },
        }
        let jump = self.EX.latch_out_cond;
        let stall = self.control();
        self.propagate(stall);
        let res = Ok(!stall && !jump);
        assert(ended(res, self@, end));
        res
    }

    /// Runs one cycle. Returns whether the cycle counts as an instruction.
    pub fn cycle(&mut self) -> (res: Result<bool, ExecutionError>)
        requires
            old(self).wf(),
        ensures
            final(self).wf(),
            old(self)@.cycles_to(final(self)@, res),
            match old(self)@.cycled() {
                Some(c) => ended(res, final(self)@, c),
                None => old(self)@.device_cycled(final(self)@, res),
            },
    {
        reveal(PipelineView::cycled);
        reveal(PipelineView::device_cycled);
        reveal(PipelineView::cycles_to);
        let front = self.tick_front();
        let ghost f = match old(self)@.fetch.ticked(old(self)@.mem) {
            Some(f) => f,
            None => old(self)@.fetch.handed(old(self)@.mem, self.IF.latch_out_IR.0),
        };
        let ghost refused = old(self)@.fetch.ticked(old(self)@.mem) is None && !old(
            self,
        )@.decodes_to(f, self@, front);
        match front {
            Ok(_) => {},
            Err(e) => {
                let res = Err(e);
                assert(refused || old(self)@.goes_on_to(f, self@, res));
                return res;
            },
        }
        match self.tick_execute() {
            Ok(_) => {},
            Err(e) => {
                let res = Err(e);
                assert(old(self)@.goes_on_to(f, self@, res));
                return res;
            },
        }
        let res = self.tick_back();
        assert(old(self)@.goes_on_to(f, self@, res));
        res
    }
}

impl Runnable for Core {
    open spec fn runnable(&self) -> bool {
        self.wf()
    }

    /// Runs cycles until the execute stage has asked for termination, a
    /// cycle fails, or `fuel` cycles have been run. Every cycle is counted
    /// in `stat`, and as an instruction where the execute stage neither
    /// waited nor jumped.
    ///
    /// The state that the run ends in is one that the cycles counted may
    /// lead to, and for a cycle that fails, one that the failing cycle may
    /// lead to from there. Where no device decides any cycle, it is the
    /// state that `ran` gives.
    fn run(&mut self, stat: &mut Stats, fuel: u64) -> (res: Result<bool, ExecutionError>)
        ensures
            final(stat).start_time == old(stat).start_time,
            0 <= final(stat).instruction_count - old(stat).instruction_count,
            final(stat).instruction_count - old(stat).instruction_count <= final(stat).cycle_count
                - old(stat).cycle_count,
            final(stat).cycle_count - old(stat).cycle_count <= fuel,
            ({
                let cycles = (final(stat).cycle_count - old(stat).cycle_count) as nat;
                let instructions = (final(stat).instruction_count - old(stat).instruction_count) as nat;
                match res {
                    Ok(finished) => {
                        &&& old(self)@.runs_to(final(self)@, cycles, instructions)
                        &&& finished == final(self)@.execute.control_out_termination
                        &&& !finished ==> cycles == fuel
                    },
                    Err(e) => exists|last: PipelineView|
                        {
                            &&& #[trigger] old(self)@.runs_to(last, cycles, instructions)
                            &&& !last.execute.control_out_termination
                            &&& last.cycles_to(final(self)@, Err(e))
                        },
                }
            }),
            match old(self)@.ran(fuel as nat) {
                Some(r) => {
                    &&& final(self)@ == r.state
                    &&& final(stat).cycle_count == old(stat).cycle_count + r.cycles
                    &&& final(stat).instruction_count == old(stat).instruction_count
                        + r.instructions
                    &&& match r.error {
                        Some(e) => res matches Err(x) && x@ == e,
                        None => res == Ok::<bool, ExecutionError>(r.finished),
                    }
                },
                None => true,
            },
    {
        let mut i: u64 = 0;
        let mut counted: u64 = 0;
        let ghost mut laps: Seq<Lap> = seq![Lap { state: self@, instructions: 0 }];
        proof {
            lemma_run_starts(self@);
        }
        loop
            invariant
                i <= fuel,
                counted <= i,
                self.wf(),
                is_run(laps),
                laps.len() == i + 1,
                laps[0] == (Lap { state: old(self)@, instructions: 0 }),
                laps.last() == (Lap { state: self@, instructions: counted as nat }),
                old(stat).cycle_count + fuel <= usize::MAX,
                old(stat).instruction_count + fuel <= isize::MAX,
                stat.cycle_count == old(stat).cycle_count + i,
                stat.instruction_count == old(stat).instruction_count + counted,
                stat.start_time == old(stat).start_time,
                old(self)@.ran(fuel as nat) is Some ==> old(self)@.ran(fuel as nat) == after_cycles(
                    self@.ran((fuel - i) as nat),
                    i as nat,
                    counted as nat,
                ),
            decreases fuel - i,
        {
            if self.EX.control_out_termination {
                stat.mark_finished();
                assert(old(self)@.runs_to(self@, i as nat, counted as nat));
                return Ok(true);
            }
            if i >= fuel {
                assert(old(self)@.runs_to(self@, i as nat, counted as nat));
                return Ok(false);
            }
            let ghost before = self@;
            let retired = match self.cycle() {
                Ok(retired) => retired,
                Err(e) => {
                    assert(old(self)@.runs_to(
                        before,
                        (stat.cycle_count - old(stat).cycle_count) as nat,
                        (stat.instruction_count - old(stat).instruction_count) as nat,
                    ));
                    assert(before.cycles_to(self@, Err(e)));
                    return Err(e);
                },
            };
            proof {
                lemma_run_goes_on(laps, self@, retired);
                laps = laps.push(
                    Lap {
                        state: self@,
                        instructions: counted as nat + if retired {
                            1nat
                        } else {
                            0nat
                        },
                    },
                );
            }
            stat.cycle_incr();
            if retired {
                stat.instr_incr();
                counted += 1;
            }
            i += 1;
        }
    }

    /// Loads an executable image into memory and sets the fetch stage to
    /// its entry. An image that is refused changes nothing.
    fn load_RELF(&mut self, image: &[u8]) -> (res: Result<(), HeaderError>)
        ensures
            res is Ok ==> final(self)@ == (PipelineView {
                fetch: InstructionFetch { pc: final(self).IF.pc, ..old(self).IF },
                mem: final(self)@.mem,
                ..old(self)@
            }),
            res is Err ==> final(self)@ == old(self)@,
            match verdict(image@) {
                Err(e) => res matches Err(x) && x@ == e,
                Ok(plan) => if old(self)@.mem.bytes.len() + plan.extent() > usize::MAX || old(
                    self,
                )@.mem.bytes.len() + 4 > usize::MAX {
                    res matches Err(x) && x@ == too_large()
                } else {
                    &&& res is Ok
                    &&& final(self).IF.pc == plan.entry
                    &&& final(self)@.mem == old(self)@.mem.extended(plan.extent()).written(
                        plan.text_paddr as int,
                        plan.text(image@),
                    ).written(plan.data_paddr as int, plan.data(image@))
                },
            },
    {
        match self.held_mem.load_RELF(image) {
            Ok(pc) => {
                self.IF.set_pc(pc);
                Ok(())
            },
            Err(e) => Err(e),
        }
    }

    /// Loads a raw image into memory from address 0 on, in place of what
    /// was there, and sets the fetch stage to `entry`.
    fn load_bin(&mut self, image: &[u8], entry: u32)
        ensures
            final(self)@ == (PipelineView {
                fetch: InstructionFetch { pc: entry, ..old(self).IF },
                mem: MemoryView { bytes: image@, ..old(self)@.mem },
                ..old(self)@
            }),
    {
        self.IF.set_pc(entry);
        self.held_mem.load_bin(image);
    }
}

impl Privileged for Core {
    /// Sets the privilege that the execute stage holds, and what the fetch
    /// and the memory stage have learnt of it.
    fn set_privilege(&mut self, privilege: bool)
        ensures
            final(self).wf() == old(self).wf(),
            final(self)@ == (PipelineView {
                fetch: InstructionFetch { latch_in_is_privileged: privilege, ..old(self).IF },
                execute: Execution { latch_out_is_privileged: privilege, ..old(self).EX },
                memory: MemoryStage { latch_in_is_privileged: privilege, ..old(self).MEM },
                ..old(self)@
            }),
    {
        self.IF.latch_in_is_privileged = privilege;
        self.EX.latch_out_is_privileged = privilege;
        self.MEM.latch_in_is_privileged = privilege;
    }
}

/// The state in which a pipelined core starts.
pub open spec fn initial(verbose: bool) -> PipelineView {
    PipelineView {
        fetch: InstructionFetch {
            latch_out_new_pc: 0,
            latch_out_IR: (0u32, 0u32),
            latch_in_cond: false,
            latch_in_new_pc: 0,
            latch_in_is_privileged: false,
            control_in_stall: false,
            pc: 0,
            verbose,
        },
        decode: DecodeView {
            latch_out_new_pc: 0,
            latch_out_A: None,
            latch_out_B: None,
            latch_out_I: None,
            latch_out_RDest: None,
            latch_out_instruction_ID: 0,
            control_out_EXOP: (InstructionType::Special, 0u32, 0u32),
            latch_in_new_pc: 0,
            latch_in_IR: (0u32, 0u32),
            latch_in_RDest: Some(SuccessfulOwn { register_number: 0 }),
            latch_in_WB_contents: EX_OUT::NoOutput,
            latch_in_instruction_ID: 0,
            control_out_reg_release_bcast: ReleaseBcast::NoRelease,
            control_in_stall: false,
            verbose,
            regs: Seq::new(35, |i: int| RegisterState::free(0)).update(
                reg_names::SP as int,
                RegisterState::free(180),
            ),
            timestamp: 0,
        },
        execute: Execution {
            latch_in_new_pc: 0,
            latch_in_A: None,
            latch_in_B: None,
            latch_in_I: None,
            latch_in_RDest: None,
            latch_in_instruction_ID: 0,
            control_in_EXOP: (InstructionType::Special, 0u32, 0u32),
            control_in_free_register_feed: 0,
            latch_out_cond: false,
            latch_out_EX_OUT: EX_OUT::NoOutput,
            latch_out_RDest: None,
            latch_out_instruction_ID: 0,
            latch_out_is_privileged: false,
            control_out_termination: false,
            verbose,
            EPC: 0,
            irq_handler_addr: 0,
        },
        memory: MemoryStage {
            latch_in_EX_OUT: EX_OUT::NoOutput,
            latch_in_RDest: None,
            latch_in_instruction_ID: 0,
            latch_in_is_privileged: false,
            latch_out_WB: EX_OUT::NoOutput,
            latch_out_RDest: None,
            latch_out_instruction_ID: 0,
            verbose,
        },
        write_back: WriteBack {
            latch_in_WB: EX_OUT::NoOutput,
            latch_in_RDest: None,
            latch_in_instruction_ID: 0,
            latch_out_WB_contents: EX_OUT::NoOutput,
            latch_out_RDest: None,
            latch_out_instruction_ID: 0,
            verbose,
        },
        mem: MemoryView {
            bytes: DEFAULT_IRQH@,
            privileged: false,
            protected: seq![(0u32, 176u32), (180u32, 692u32)],
            devices: seq![(0x80000000u32, 0x80000007u32), (0x80000008u32, 0x8000000fu32)],
            verbose,
        },
        verbose,
    }
}

} // verus!
