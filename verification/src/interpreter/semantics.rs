use crate::alu::{
    access_size, branch_taken, class_of, displacement, divides, func_field, i_value, imm_field,
    is_branch, is_load, is_store, opcode_field, r_pair, r_value, rd_field, rs_field, rt_field,
    sham_field, target_field,
};
use crate::definitions::arch::op;
use crate::definitions::arch::{
    flag_on, with_flag, FIN_FLAG, IENABLE_FLAG, INTERR_FLAG, MODE_FLAG, S_FLAG, Z_FLAG,
};
use crate::access::{loaded, stored};
use crate::definitions::errors::{ExecutionError, ExecutionErrorView};
use crate::memory::MemoryView;
use vstd::prelude::*;

verus! {

/// The architectural state of the single-cycle core.
pub struct CoreView {
    /// The 32 general registers.
    pub reg: Seq<u32>,
    pub hi: u32,
    pub lo: u32,
    pub flags: u32,
    pub pc: u32,
    pub epc: u32,
    pub irq_handler_addr: u32,
    /// Set by `RFE`: interrupts are to be enabled again after the next instruction.
    pub int_enable_on_next: bool,
    /// Set one instruction after `RFE`: the instruction that retires now
    /// enables interrupts.
    pub int_enable_armed: bool,
    /// The interrupt pulses that have come in and were not yet taken.
    pub pending_interrupts: u64,
    /// Whether the sources of interrupts are still asked to fire.
    pub interrupts_open: bool,
    pub mem: MemoryView,
    /// Whether tracing was asked for when the core was made.
    pub verbose: bool,
}

/// A state and, where execution stopped on an error, the error.
pub struct Outcome {
    pub state: CoreView,
    pub error: Option<ExecutionErrorView>,
}

impl CoreView {
    pub open spec fn fine(self) -> Outcome {
        Outcome { state: self, error: None }
    }

    pub open spec fn failed(self, e: ExecutionErrorView) -> Outcome {
        Outcome { state: self, error: Some(e) }
    }

    pub open spec fn flag(self, flag: u32) -> bool {
        flag_on(self.flags, flag)
    }

    pub open spec fn set_flag(self, set: bool, flag: u32) -> CoreView {
        CoreView { flags: with_flag(self.flags, set, flag), ..self }
    }

    pub open spec fn set_privileged(self, privileged: bool) -> CoreView {
        CoreView { mem: MemoryView { privileged, ..self.mem }, ..self }
    }

    pub open spec fn write_reg(self, r: int, v: u32) -> CoreView {
        CoreView { reg: self.reg.update(r, v), ..self }
    }

    /// The state with Z and S set from the result `res`.
    pub open spec fn result_flags(self, res: u32) -> CoreView {
        self.set_flag(res == 0, Z_FLAG).set_flag(res >= 0x8000_0000, S_FLAG)
    }

    /// The state with the program counter set for a jump to `target`: four
    /// before the target, as retiring adds four, but 0 for the target 0.
    pub open spec fn jump(self, target: u32) -> CoreView {
        CoreView {
            pc: if target != 0 {
                target.wrapping_sub(4)
            } else {
                0
            },
            ..self
        }
    }

    /// The state after the entry to the trap handler: the core and memory
    /// are privileged, interrupts are disabled, the program counter is saved,
    /// and execution goes on four bytes before the handler, or at 0 for a
    /// handler below address 4.
    pub open spec fn entered(self) -> CoreView {
        let s = self.set_flag(true, MODE_FLAG).set_privileged(true).set_flag(false, IENABLE_FLAG);
        CoreView { epc: self.pc, pc: self.irq_handler_addr.saturating_sub(4), ..s }
    }

    /// The outcome of the R-type instruction `code`.
    pub open spec fn after_r(self, code: u32) -> Outcome {
        let rs = self.reg[rs_field(code) as int];
        let rt = self.reg[rt_field(code) as int];
        let rd = rd_field(code) as int;
        let func = func_field(code);
        if code == op::NOP {
            self.fine()
        } else if r_value(func, rs, rt, sham_field(code)) is Some {
            let v = r_value(func, rs, rt, sham_field(code))->0;
            self.write_reg(rd, v).result_flags(v).fine()
        } else if divides(func) && rt == 0 {
            self.failed(
                ExecutionErrorView::DivisionByZero(
                    if func == op::r::DIV {
                        "DIV"@
                    } else {
                        "DIVU"@
                    },
                ),
            )
        } else if r_pair(func, rs, rt) is Some {
            let (hi, lo) = r_pair(func, rs, rt)->0;
            (CoreView { hi, lo, ..self }).result_flags(1).fine()
        } else if func == op::r::JALR {
            self.write_reg(31, self.pc.wrapping_add(4)).jump(rs).result_flags(1).fine()
        } else if func == op::r::JR {
            self.jump(rs).result_flags(1).fine()
        } else if func == op::r::MFHI {
            self.write_reg(rd, self.hi).result_flags(1).fine()
        } else if func == op::r::MFLO {
            self.write_reg(rd, self.lo).result_flags(1).fine()
        } else if func == op::r::MTHI {
            (CoreView { hi: rs, ..self }).result_flags(1).fine()
        } else if func == op::r::MTLO {
            (CoreView { lo: rs, ..self }).result_flags(1).fine()
        } else {
            self.failed(ExecutionErrorView::unrecognized("R"@, func, 0))
        }
    }

    /// The outcome of the J-type instruction `code`.
    pub open spec fn after_j(self, code: u32) -> Outcome {
        let opcode = opcode_field(code);
        if code == op::SYSCALL {
            self.entered().fine()
        } else if opcode == op::j::J {
            self.jump(target_field(code)).fine()
        } else if opcode == op::j::JAL {
            self.write_reg(31, self.pc.wrapping_add(4)).jump(target_field(code)).fine()
        } else {
            self.failed(ExecutionErrorView::unrecognized("J"@, opcode, 2))
        }
    }

    /// The state after a return from the trap handler.
    pub open spec fn returned(self) -> CoreView {
        let s = CoreView { pc: self.epc, int_enable_on_next: true, ..self };
        s.set_flag(false, MODE_FLAG).set_flag(false, INTERR_FLAG).set_privileged(false)
    }

    /// The state after a halt.
    pub open spec fn halted(self) -> CoreView {
        let s = CoreView { interrupts_open: false, pending_interrupts: 0, ..self };
        s.set_flag(false, MODE_FLAG).set_flag(true, FIN_FLAG).set_privileged(false)
    }

    /// The address that a load or a store of the instruction `code` goes to.
    pub open spec fn address(self, code: u32) -> u32 {
        self.reg[rs_field(code) as int].wrapping_add(imm_field(code))
    }

    /// The outcome of the I-type instruction `code`, where no device
    /// decides it. `None` where the instruction is a load or a store that a
    /// device answers.
    pub open spec fn after_i(self, code: u32) -> Option<Outcome> {
        let opcode = opcode_field(code);
        let rs = self.reg[rs_field(code) as int];
        let rt = rt_field(code) as int;
        let imm = imm_field(code);
        let addr = self.address(code);
        if code == op::RFE {
            Some(
                if self.flag(MODE_FLAG) {
                    self.returned().fine()
                } else {
                    self.failed(ExecutionErrorView::PrivilegeError("RFE"@))
                },
            )
        } else if code == op::HLT {
            Some(
                if self.flag(MODE_FLAG) {
                    self.halted().fine()
                } else {
                    self.failed(ExecutionErrorView::PrivilegeError("HLT"@))
                },
            )
        } else if i_value(opcode, rs, imm) is Some {
            Some(self.write_reg(rt, i_value(opcode, rs, imm)->0).fine())
        } else if opcode == op::i::LHI || opcode == op::i::LLO {
            Some(self.fine())
        } else if is_branch(opcode) {
            Some(
                if branch_taken(opcode, rs, self.reg[rt]) {
                    (CoreView { pc: self.pc.wrapping_add(displacement(imm)), ..self }).fine()
                } else {
                    self.fine()
                },
            )
        } else if is_load(opcode) {
            match loaded(self.mem, addr, access_size(opcode)->0) {
                Some((mem, Ok(v))) => Some((CoreView { mem, ..self }).write_reg(rt, v).fine()),
                Some((mem, Err(e))) => Some((CoreView { mem, ..self }).failed(e)),
                None => None,
            }
        } else if is_store(opcode) {
            match stored(self.mem, self.reg[rt], addr, access_size(opcode)->0) {
                Some((mem, None)) => Some((CoreView { mem, ..self }).fine()),
                Some((mem, Some(e))) => Some((CoreView { mem, ..self }).failed(e)),
                None => None,
            }
        } else {
            Some(self.failed(ExecutionErrorView::unrecognized("I"@, opcode, 0)))
        }
    }

    /// What a device may leave of the I-type instruction `code` that it
    /// decides: a load writes its destination or fails, a store succeeds or
    /// fails, and nothing else changes.
    pub open spec fn device_decided(
        self,
        code: u32,
        after: CoreView,
        res: Result<(), ExecutionError>,
    ) -> bool {
        let rt = rt_field(code) as int;
        match res {
            Ok(_) => if is_load(opcode_field(code)) {
                after == self.write_reg(rt, after.reg[rt])
            } else {
                after == self
            },
            Err(e) => after == self && e is MemError,
        }
    }

    /// The outcome of the instruction `code`, of whatever class, where no
    /// device decides it.
    pub open spec fn executed(self, code: u32) -> Option<Outcome> {
        match class_of(code) {
            op::InstructionType::R => Some(self.after_r(code)),
            op::InstructionType::J => Some(self.after_j(code)),
            _ => self.after_i(code),
        }
    }

    /// The state after the routine that ends every instruction: the
    /// program counter moves on by four and register 0 is zero again; unless
    /// the core has halted, interrupts are enabled where that is due, a
    /// pending interrupt is taken where interrupts are enabled outside
    /// privileged mode, and a return from the handler arms the enabling.
    pub open spec fn retired(self) -> CoreView {
        let s1 = CoreView { pc: self.pc.wrapping_add(4), reg: self.reg.update(0, 0), ..self };
        if s1.flag(FIN_FLAG) {
            s1
        } else {
            let s2 = if s1.int_enable_armed {
                (CoreView { int_enable_armed: false, ..s1 }).set_flag(true, IENABLE_FLAG)
            } else {
                s1
            };
            let s3 = if s2.flag(IENABLE_FLAG) && !s2.flag(MODE_FLAG) {
                let polled = if s2.pending_interrupts > 0 {
                    (CoreView {
                        pending_interrupts: (s2.pending_interrupts - 1) as u64,
                        ..s2
                    }).set_flag(true, INTERR_FLAG)
                } else {
                    s2
                };
                if polled.flag(INTERR_FLAG) {
                    (CoreView { pc: polled.pc.wrapping_sub(4), ..polled }).entered()
                } else {
                    polled
                }
            } else {
                s2
            };
            if s3.int_enable_on_next {
                CoreView { int_enable_on_next: false, int_enable_armed: true, ..s3 }
            } else {
                s3
            }
        }
    }

    /// The outcome of the instruction at the address `at`, fetched and
    /// executed, where no device decides it.
    pub open spec fn fetched_and_executed(self, at: u32) -> Option<Outcome> {
        match loaded(self.mem, at, 4) {
            Some((mem, Ok(code))) => (CoreView { mem, ..self }).executed(code),
            Some((mem, Err(e))) => Some((CoreView { mem, ..self }).failed(e)),
            None => None,
        }
    }

    /// Whether executing the word `code` may leave the state `after` and
    /// the result `res`: as `executed` says where no device decides the
    /// instruction, and as `device_decided` allows where one does.
    pub open spec fn executes_to(
        self,
        code: u32,
        after: CoreView,
        res: Result<(), ExecutionError>,
    ) -> bool {
        match self.executed(code) {
            Some(o) => agrees(res, after, o),
            None => self.device_decided(code, after, res),
        }
    }

    /// What a device may leave of the instruction at the address `at`.
    ///
    /// Where the instruction comes from memory and a device decides what it
    /// does, `device_decided` says what is left. Where the instruction itself
    /// is fetched from a device, either the fetch fails, with an error of
    /// memory and nothing changed, or the device hands out some word, and
    /// what is left is what executing that word may leave.
    pub open spec fn device_executed(
        self,
        at: u32,
        after: CoreView,
        res: Result<(), ExecutionError>,
    ) -> bool {
        match loaded(self.mem, at, 4) {
            Some((mem, Ok(code))) => (CoreView { mem, ..self }).device_decided(code, after, res),
            Some((mem, Err(e))) => agrees(res, after, (CoreView { mem, ..self }).failed(e)),
            None => {
                ||| (after == self && (res matches Err(e) && e is MemError))
                ||| exists|code: u32| #[trigger] self.executes_to(code, after, res)
            },
        }
    }

    /// What a device may leave of a whole step on the instruction `code`
    /// that it decides: a load that succeeds writes some word to its
    /// destination, a store that succeeds changes nothing, and the routine
    /// that ends an instruction follows; a load or a store that fails leaves
    /// the program counter on it.
    pub open spec fn device_finished(
        self,
        code: u32,
        after: CoreView,
        res: Result<(), ExecutionError>,
    ) -> bool {
        match res {
            Ok(_) => if is_load(opcode_field(code)) {
                exists|v: u32| after == #[trigger] self.write_reg(rt_field(code) as int, v).retired()
            } else {
                after == self.retired()
            },
            Err(e) => after == self && e is MemError,
        }
    }

    /// Whether a whole step on the word `code` may leave the state `after`
    /// and the result `res`: the instruction, and the routine that ends it
    /// unless the instruction failed.
    pub open spec fn finishes_to(
        self,
        code: u32,
        after: CoreView,
        res: Result<(), ExecutionError>,
    ) -> bool {
        match self.executed(code) {
            Some(o) => agrees(
                res,
                after,
                if o.error is None {
                    o.state.retired().fine()
                } else {
                    o
                },
            ),
            None => self.device_finished(code, after, res),
        }
    }

    /// What a device may leave of a step.
    ///
    /// Where the instruction comes from memory and a device decides what it
    /// does, `device_finished` says what is left. Where the instruction
    /// itself is fetched from a device, either the fetch fails, with an error
    /// of memory and nothing changed, or the device hands out some word, and
    /// what is left is what a whole step on that word may leave.
    pub open spec fn device_stepped(self, after: CoreView, res: Result<(), ExecutionError>) -> bool {
        match loaded(self.mem, self.pc, 4) {
            Some((mem, Ok(code))) => (CoreView { mem, ..self }).device_finished(code, after, res),
            Some((mem, Err(e))) => agrees(res, after, (CoreView { mem, ..self }).failed(e)),
            None => {
                ||| (after == self && (res matches Err(e) && e is MemError))
                ||| exists|code: u32| #[trigger] self.finishes_to(code, after, res)
            },
        }
    }

    /// The outcome of one whole step, where no device decides it: the
    /// instruction at the program counter, and the routine that ends it
    /// unless the instruction failed.
    #[verifier::opaque]
    pub open spec fn stepped(self) -> Option<Outcome> {
        match self.fetched_and_executed(self.pc) {
            Some(o) => Some(
                if o.error is None {
                    o.state.retired().fine()
                } else {
                    o
                },
            ),
            None => None,
        }
    }
}

impl CoreView {
    /// Whether one step may lead from this state to the state `after`,
    /// and fail with `error` or succeed: as `stepped` says where no device
    /// decides the step, and as `device_stepped` allows where one does.
    #[verifier::opaque]
    pub open spec fn steps_to(self, after: CoreView, error: Option<ExecutionError>) -> bool {
        let res = match error {
            Some(e) => Err(e),
            None => Ok(()),
        };
        match self.stepped() {
            Some(o) => agrees(res, after, o),
            None => self.device_stepped(after, res),
        }
    }

    /// Whether `n` steps that succeed may lead from this state to the
    /// state `after`, with the core not halted between any two of them.
    pub open spec fn runs_to(self, after: CoreView, n: nat) -> bool {
        exists|trace: Seq<CoreView>|
            {
                &&& #[trigger] is_run(trace)
                &&& trace.len() == n + 1
                &&& trace[0] == self
                &&& trace.last() == after
            }
    }
}

/// Whether `trace` is a run: a step that succeeds leads from every state
/// of it to the next, and the core is halted in none of its states but,
/// possibly, the first and the last.
#[verifier::opaque]
pub open spec fn is_run(trace: Seq<CoreView>) -> bool {
    &&& trace.len() > 0
    &&& forall|i: int|
        #![trigger trace[i]]
        0 <= i < trace.len() - 1 ==> trace[i].steps_to(trace[i + 1], None)
    &&& forall|i: int| #![trigger trace[i]] 0 < i < trace.len() - 1 ==> !trace[i].flag(FIN_FLAG)
}

/// A state alone is a run of no step.
pub proof fn lemma_run_starts(s: CoreView)
    ensures
        is_run(seq![s]),
{
    reveal(is_run);
}

/// A run goes on by one step: if `trace` is a run in whose last state the
/// core is not halted, unless that state is also its first, and a step
/// leads from there to `next`, then `trace` with `next` is a run.
pub proof fn lemma_run_goes_on(trace: Seq<CoreView>, next: CoreView)
    requires
        is_run(trace),
        trace.len() > 1 ==> !trace.last().flag(FIN_FLAG),
        trace.last().steps_to(next, None),
    ensures
        is_run(trace.push(next)),
{
    reveal(is_run);
    let longer = trace.push(next);
    assert forall|i: int| 0 <= i < longer.len() - 1 implies (#[trigger] longer[i]).steps_to(
        longer[i + 1],
        None,
    ) by {
        if i < trace.len() - 1 {
            assert(longer[i] == trace[i] && longer[i + 1] == trace[i + 1]);
        }
    }
    assert forall|i: int| 0 < i < longer.len() - 1 implies !(#[trigger] longer[i]).flag(
        FIN_FLAG,
    ) by {
        assert(longer[i] == trace[i]);
    }
}

/// How a run ended.
pub struct RunOutcome {
    pub state: CoreView,
    /// The error that stopped the run, if one did.
    pub error: Option<ExecutionErrorView>,
    /// Whether the core has halted.
    pub finished: bool,
    /// The number of instructions that were retired.
    pub steps: nat,
}

impl RunOutcome {
    pub open spec fn later(self, by: nat) -> RunOutcome {
        RunOutcome { steps: self.steps + by, ..self }
    }
}

/// The outcome `r` with `by` more instructions counted.
pub open spec fn later(r: Option<RunOutcome>, by: nat) -> Option<RunOutcome> {
    match r {
        Some(r) => Some(r.later(by)),
        None => None,
    }
}

impl CoreView {
    /// The outcome of a run of at most `fuel` instructions, where no device
    /// decides any of them: the run ends with the instruction that fails,
    /// with the one that halts the core, or when the fuel is spent.
    pub open spec fn ran(self, fuel: nat) -> Option<RunOutcome>
        decreases fuel,
    {
        if fuel == 0 {
            Some(RunOutcome { state: self, error: None, finished: false, steps: 0 })
        } else {
            match self.stepped() {
                None => None,
                Some(o) => if o.error is Some {
                    Some(RunOutcome { state: o.state, error: o.error, finished: false, steps: 0 })
                } else if o.state.flag(FIN_FLAG) {
                    Some(RunOutcome { state: o.state, error: None, finished: true, steps: 1 })
                } else {
                    later(o.state.ran((fuel - 1) as nat), 1)
                },
            }
        }
    }
}

/// Whether the result `res` and the state `after` are what the outcome `o` asks for.
pub open spec fn agrees(res: Result<(), ExecutionError>, after: CoreView, o: Outcome) -> bool {
    &&& after == o.state
    &&& match o.error {
        None => res is Ok,
        Some(e) => res matches Err(x) && x@ == e,
    }
}

} // verus!
