use crate::alu::{
    access_size, branch_displacement, branch_taken, compute_i_value, compute_r_pair,
    compute_r_value, decide_branch, displacement, divides, i_value, is_branch, is_load, is_store,
    r_pair, r_value, size_of_access,
};
use crate::definitions::arch::op;
use crate::definitions::arch::op::InstructionType;
use crate::definitions::errors::{ExecutionError, ExecutionErrorView, RegisterError};
use crate::devices::registers::{Available, SuccessfulOwn, HI_IDENT, LO_IDENT};
use crate::pipeline::pipelined::Pipelined;
use vstd::prelude::*;
use vstd::string::StringExecFns;

verus! {

/// What the execute stage hands on.
#[derive(Debug, Copy, Clone, PartialEq, Eq)]
pub enum EX_OUT {
    /// The instruction waits for its first or its second operand: for each
    /// that is busy, the owner's handle and the register's number.
    AwaitingLock(Option<(usize, u32)>, Option<(usize, u32)>),
    /// A word for the destination register.
    Value(u32),
    /// A pair of words for HI and LO.
    DoubleValue(u32, u32),
    /// A load: the address and the size.
    LoadFrom(u32, u32),
    /// A store: the word, the address and the size.
    StoreValue(u32, u32, u32),
    /// A jump to an address.
    DoJump(u32),
    /// A jump to an address that leaves the return address in RA.
    DoJumpWithRA(u32, u32),
    /// A move that involves HI or LO: the source and the destination.
    /// Where the destination is HI or LO the source is the word to move;
    /// where it is a general register the source is the number of HI or of LO.
    Move(u32, u32),
    NoOutput,
    /// The core is to halt.
    Abort,
}

/// The execute stage: it computes results and addresses, decides jumps,
/// and holds the privilege of the core.
pub struct Execution {
    pub latch_in_new_pc: u32,
    pub latch_in_A: Option<Result<Available, RegisterError>>,
    pub latch_in_B: Option<Result<Available, RegisterError>>,
    pub latch_in_I: Option<u32>,
    pub latch_in_RDest: Option<Result<SuccessfulOwn, RegisterError>>,
    pub latch_in_instruction_ID: usize,
    /// The class of the instruction, its function, and the address it was fetched at.
    pub control_in_EXOP: (InstructionType, u32, u32),
    pub control_in_free_register_feed: usize,
    pub latch_out_cond: bool,
    pub latch_out_EX_OUT: EX_OUT,
    pub latch_out_RDest: Option<Result<SuccessfulOwn, RegisterError>>,
    pub latch_out_instruction_ID: usize,
    /// The privilege of the core. It is an output and also the stage's own state.
    pub latch_out_is_privileged: bool,
    pub control_out_termination: bool,
    pub verbose: bool,
    pub EPC: u32,
    pub irq_handler_addr: u32,
}

/// The owner and the number of the register that a busy operand waits for.
pub open spec fn lock_of(operand: Result<Available, RegisterError>) -> Option<(usize, u32)> {
    match operand {
        Err(RegisterError::LockedWithHandle(handle, regno)) => Some((handle, regno)),
        _ => None,
    }
}

/// The word that an operand holds, and 0 for one that is busy.
pub open spec fn value_of(operand: Result<Available, RegisterError>) -> u32 {
    match operand {
        Ok(Available { value }) => value,
        _ => 0,
    }
}

/// Whether an operand is one that the decode stage can hand on: a word, or
/// the lock that it waits for.
pub open spec fn is_operand(operand: Result<Available, RegisterError>) -> bool {
    !(operand matches Err(RegisterError::NotOwned(_, _)))
}

/// The number of the register that a destination names.
pub open spec fn regno_of(dest: Result<SuccessfulOwn, RegisterError>) -> u32 {
    match dest {
        Ok(SuccessfulOwn { register_number }) => register_number,
        Err(RegisterError::LockedWithHandle(_, regno)) => regno,
        Err(RegisterError::NotOwned(_, regno)) => regno,
    }
}

/// What the stage hands on for an I-type instruction.
///
/// A branch that is taken jumps to the address one instruction past the
/// branch plus the displacement, which is where the single-cycle core goes on
/// after the same branch.
pub open spec fn i_output(
    operation: u32,
    operand_1: Result<Available, RegisterError>,
    operand_2: Result<Available, RegisterError>,
    immediate: u32,
    emitted_at: u32,
) -> Result<EX_OUT, ExecutionErrorView> {
    let a = value_of(operand_1);
    let b = value_of(operand_2);
    if lock_of(operand_1) is Some {
        Ok(EX_OUT::AwaitingLock(lock_of(operand_1), lock_of(operand_2)))
    } else if lock_of(operand_2) is Some && (is_branch(operation) || is_store(operation)) {
        Ok(EX_OUT::AwaitingLock(lock_of(operand_1), lock_of(operand_2)))
    } else if i_value(operation, a, immediate) is Some {
        Ok(EX_OUT::Value(i_value(operation, a, immediate)->0))
    } else if operation == op::i::LHI || operation == op::i::LLO {
        Ok(EX_OUT::NoOutput)
    } else if is_branch(operation) {
        Ok(
            if branch_taken(operation, a, b) {
                EX_OUT::DoJump(emitted_at.wrapping_add(4).wrapping_add(displacement(immediate)))
            } else {
                EX_OUT::NoOutput
            },
        )
    } else if is_load(operation) {
        Ok(EX_OUT::LoadFrom(a.wrapping_add(immediate), access_size(operation)->0 as u32))
    } else if is_store(operation) {
        Ok(EX_OUT::StoreValue(b, a.wrapping_add(immediate), access_size(operation)->0 as u32))
    } else {
        Err(ExecutionErrorView::unrecognized("I"@, operation, 0))
    }
}

/// What the stage hands on for an R-type instruction with the destination `dest`.
pub open spec fn r_output(
    operation: u32,
    operand_1: Result<Available, RegisterError>,
    operand_2: Result<Available, RegisterError>,
    sham: u32,
    emitted_at: u32,
    dest: Result<SuccessfulOwn, RegisterError>,
) -> Result<EX_OUT, ExecutionErrorView> {
    let a = value_of(operand_1);
    let b = value_of(operand_2);
    if lock_of(operand_1) is Some || lock_of(operand_2) is Some {
        Ok(EX_OUT::AwaitingLock(lock_of(operand_1), lock_of(operand_2)))
    } else if r_value(operation, a, b, sham) is Some {
        Ok(EX_OUT::Value(r_value(operation, a, b, sham)->0))
    } else if divides(operation) && b == 0 {
        Err(
            ExecutionErrorView::DivisionByZero(
                if operation == op::r::DIV {
                    "DIV"@
                } else {
                    "DIVU"@
                },
            ),
        )
    } else if r_pair(operation, a, b) is Some {
        let (hi, lo) = r_pair(operation, a, b)->0;
        Ok(EX_OUT::DoubleValue(hi, lo))
    } else if operation == op::r::JALR {
        Ok(EX_OUT::DoJumpWithRA(a, emitted_at.wrapping_add(4)))
    } else if operation == op::r::JR {
        Ok(EX_OUT::DoJump(a))
    } else if operation == op::r::MFHI {
        Ok(EX_OUT::Move(HI_IDENT, regno_of(dest)))
    } else if operation == op::r::MFLO {
        Ok(EX_OUT::Move(LO_IDENT, regno_of(dest)))
    } else if operation == op::r::MTHI {
        Ok(EX_OUT::Move(a, HI_IDENT))
    } else if operation == op::r::MTLO {
        Ok(EX_OUT::Move(a, LO_IDENT))
    } else {
        Err(ExecutionErrorView::unrecognized("R"@, operation, 0))
    }
}

/// What the stage hands on for a J-type instruction.
pub open spec fn j_output(operation: u32, immediate: u32, emitted_at: u32) -> Result<
    EX_OUT,
    ExecutionErrorView,
> {
    if operation == op::j::J {
        Ok(EX_OUT::DoJump(immediate))
    } else if operation == op::j::JAL {
        Ok(EX_OUT::DoJumpWithRA(immediate, emitted_at.wrapping_add(4)))
    } else {
        Err(ExecutionErrorView::unrecognized("J"@, operation, 2))
    }
}

/// Whether the result `res` is what `expected` asks for.
pub open spec fn yields(res: Result<EX_OUT, ExecutionError>, expected: Result<
    EX_OUT,
    ExecutionErrorView,
>) -> bool {
    match (res, expected) {
        (Ok(out), Ok(e)) => out == e,
        (Err(x), Err(e)) => x@ == e,
        _ => false,
    }
}

fn lock(operand: &Result<Available, RegisterError>) -> (res: Option<(usize, u32)>)
    ensures
        res == lock_of(*operand),
{
    match operand {
        Err(RegisterError::LockedWithHandle(handle, regno)) => Some((*handle, *regno)),
        _ => None,
    }
}

fn value(operand: &Result<Available, RegisterError>) -> (res: u32)
    ensures
        res == value_of(*operand),
{
    match operand {
        Ok(Available { value }) => *value,
        _ => 0,
    }
}

fn operand_ok(operand: &Result<Available, RegisterError>) -> (res: bool)
    ensures
        res == is_operand(*operand),
{
    match operand {
        Err(RegisterError::NotOwned(_, _)) => false,
        _ => true,
    }
}

fn regno(dest: &Result<SuccessfulOwn, RegisterError>) -> (res: u32)
    ensures
        res == regno_of(*dest),
{
    match dest {
        Ok(SuccessfulOwn { register_number }) => *register_number,
        Err(RegisterError::LockedWithHandle(_, regno)) => *regno,
        Err(RegisterError::NotOwned(_, regno)) => *regno,
    }
}

impl Execution {
    pub fn new(irq_handler_addr: u32, verbose: bool) -> (stage: Execution)
        ensures
            stage == (Execution {
                latch_in_new_pc: 0,
                latch_in_A: None,
                latch_in_B: None,
                latch_in_I: None,
                latch_in_RDest: None,
                latch_in_instruction_ID: 0,
                control_in_EXOP: (InstructionType::Special, 0u32, 0u32),
                control_in_free_register_feed: 0,
                latch_out_cond: false,
                latch_out_EX_OUT: EX_OUT::NoOutput,
                latch_out_RDest: None,
                latch_out_instruction_ID: 0,
                latch_out_is_privileged: false,
                control_out_termination: false,
                verbose,
                EPC: 0,
                irq_handler_addr,
            }),
    {
        Execution {
            latch_in_new_pc: 0,
            latch_in_A: None,
            latch_in_B: None,
            latch_in_I: None,
            latch_in_RDest: None,
            latch_in_instruction_ID: 0,
            control_in_EXOP: (InstructionType::Special, 0, 0),
            control_in_free_register_feed: 0,
            latch_out_cond: false,
            latch_out_EX_OUT: EX_OUT::NoOutput,
            latch_out_RDest: None,
            latch_out_instruction_ID: 0,
            latch_out_is_privileged: false,
            control_out_termination: false,
            verbose,
            EPC: 0,
            irq_handler_addr,
        }
    }

    /// The stage and what it hands on after one of the instructions that
    /// take no operands: a syscall saves the address of the instruction,
    /// enters privileged mode and jumps to the handler; a return from the
    /// handler leaves privileged mode and jumps to the saved address; a halt
    /// leaves privileged mode and asks for termination. The last two are
    /// refused outside privileged mode.
    pub open spec fn special(self, operation: u32, emitted_at: u32) -> (
        Execution,
        Result<EX_OUT, ExecutionErrorView>,
    ) {
        if operation == op::SYSCALL {
            (
                Execution { EPC: emitted_at, latch_out_is_privileged: true, ..self },
                Ok(EX_OUT::DoJump(self.irq_handler_addr)),
            )
        } else if operation == op::NOP {
            (self, Ok(EX_OUT::NoOutput))
        } else if operation == op::RFE {
            if self.latch_out_is_privileged {
                (
                    Execution { latch_out_is_privileged: false, ..self },
                    Ok(EX_OUT::DoJump(self.EPC)),
                )
            } else {
                (self, Err(ExecutionErrorView::PrivilegeError("RFE"@)))
            }
        } else if operation == op::HLT {
            if self.latch_out_is_privileged {
                (
                    Execution {
                        latch_out_is_privileged: false,
                        control_out_termination: true,
                        ..self
                    },
                    Ok(EX_OUT::Abort),
                )
            } else {
                (self, Err(ExecutionErrorView::PrivilegeError("HLT"@)))
            }
        } else {
            (self, Err(ExecutionErrorView::unrecognized("Special"@, operation, 2)))
        }
    }

    /// The stage and what it hands on for the instruction on its input latches.
    pub open spec fn output(self) -> (Execution, Result<EX_OUT, ExecutionErrorView>) {
        let (class, operation, emitted_at) = self.control_in_EXOP;
        match class {
            InstructionType::I => (
                self,
                i_output(
                    operation,
                    self.latch_in_A->0,
                    self.latch_in_B->0,
                    self.latch_in_I->0,
                    emitted_at,
                ),
            ),
            InstructionType::R => (
                self,
                r_output(
                    operation,
                    self.latch_in_A->0,
                    self.latch_in_B->0,
                    self.latch_in_I->0,
                    emitted_at,
                    self.latch_in_RDest->0,
                ),
            ),
            InstructionType::J => (self, j_output(operation, self.latch_in_I->0, emitted_at)),
            InstructionType::Special => self.special(operation, emitted_at),
        }
    }

    /// The stage after a tick, and the error if the instruction failed. What
    /// is handed on goes to the output latch with the instruction's handle;
    /// the destination goes with it unless the instruction waits; a jump
    /// raises the condition. An instruction that fails leaves the output
    /// latches as they were.
    pub open spec fn ticked(self) -> (Execution, Option<ExecutionErrorView>) {
        let (s, out) = self.output();
        match out {
            Err(e) => (s, Some(e)),
            Ok(output) => (
                Execution {
                    latch_out_EX_OUT: output,
                    latch_out_RDest: if output is AwaitingLock {
                        None
                    } else {
                        s.latch_in_RDest
                    },
                    latch_out_cond: output is DoJump || output is DoJumpWithRA,
                    latch_out_instruction_ID: s.latch_in_instruction_ID,
                    ..s
                },
                None,
            ),
        }
    }

    /// Tests whether the stage can work on what is on its input latches.
    pub fn is_ready(&self) -> (r: bool)
        ensures
            r == self.ready(),
    {
        let operands = match (self.latch_in_A, self.latch_in_B) {
            (Some(a), Some(b)) => operand_ok(&a) && operand_ok(&b),
            _ => false,
        };
        match self.control_in_EXOP.0 {
            InstructionType::I => operands && match self.latch_in_I {
                Some(imm) => imm <= 0xffff,
                None => false,
            },
            InstructionType::R => {
                let operation: u32 = self.control_in_EXOP.1;
                let moves_out = operation == op::r::MFHI || operation == op::r::MFLO;
                operands && (!moves_out || self.latch_in_RDest.is_some()) && match self.latch_in_I {
                    Some(sham) => sham < 32,
                    None => false,
                }
            },
            InstructionType::J => self.latch_in_I.is_some(),
            InstructionType::Special => true,
        }
    }

    /// Executes an I-type instruction.
    pub fn handoff_I(
        &self,
        operation: u32,
        operand_1: Result<Available, RegisterError>,
        operand_2: Result<Available, RegisterError>,
        immediate: u32,
        emitted_at: u32,
    ) -> (res: Result<EX_OUT, ExecutionError>)
        requires
            is_operand(operand_1),
            is_operand(operand_2),
            immediate <= 0xffff,
        ensures
            yields(res, i_output(operation, operand_1, operand_2, immediate, emitted_at)),
    {
        let a_lock = lock(&operand_1);
        let b_lock = lock(&operand_2);
        let a: u32 = value(&operand_1);
        let b: u32 = value(&operand_2);
        let branch = operation == op::i::BEQ || operation == op::i::BNE || operation
            == op::i::BGTZ || operation == op::i::BLEZ;
        let store = operation == op::i::SB || operation == op::i::SH || operation == op::i::SW;
        if a_lock.is_some() {
            return Ok(EX_OUT::AwaitingLock(a_lock, b_lock));
        }
        if b_lock.is_some() && (branch || store) {
            return Ok(EX_OUT::AwaitingLock(a_lock, b_lock));
        }
        match compute_i_value(operation, a, immediate) {
            Some(v) => {
                return Ok(EX_OUT::Value(v));
            },
            None => {},
        }
        if operation == op::i::LHI || operation == op::i::LLO {
            return Ok(EX_OUT::NoOutput);
        }
        if branch {
            return Ok(
                if decide_branch(operation, a, b) {
                    EX_OUT::DoJump(
                        emitted_at.wrapping_add(4).wrapping_add(branch_displacement(immediate)),
                    )
                } else {
                    EX_OUT::NoOutput
                },
            );
        }
        match size_of_access(operation) {
            Some(size) => Ok(
                if store {
                    EX_OUT::StoreValue(b, a.wrapping_add(immediate), size as u32)
                } else {
                    EX_OUT::LoadFrom(a.wrapping_add(immediate), size as u32)
                },
            ),
            None => Err(ExecutionError::unrecognized("I", operation, 0)),
        }
    }

    /// Executes an R-type instruction. Only the moves out of HI and LO read
    /// the destination that the decode stage locked.
    pub fn handoff_R(
        &self,
        operation: u32,
        operand_1: Result<Available, RegisterError>,
        operand_2: Result<Available, RegisterError>,
        sham: u32,
        emitted_at: u32,
    ) -> (res: Result<EX_OUT, ExecutionError>)
        requires
            is_operand(operand_1),
            is_operand(operand_2),
            sham < 32,
            (operation == op::r::MFHI || operation == op::r::MFLO) ==> self.latch_in_RDest is Some,
        ensures
            yields(
                res,
                r_output(
                    operation,
                    operand_1,
                    operand_2,
                    sham,
                    emitted_at,
                    self.latch_in_RDest->0,
                ),
            ),
    {
        let a_lock = lock(&operand_1);
        let b_lock = lock(&operand_2);
        let a: u32 = value(&operand_1);
        let b: u32 = value(&operand_2);
        if a_lock.is_some() || b_lock.is_some() {
            return Ok(EX_OUT::AwaitingLock(a_lock, b_lock));
        }
        match compute_r_value(operation, a, b, sham) {
            Some(v) => {
                return Ok(EX_OUT::Value(v));
            },
            None => {},
        }
        if (operation == op::r::DIV || operation == op::r::DIVU) && b == 0 {
            return Err(
                ExecutionError::DivisionByZero(
                    String::from_str(
                        if operation == op::r::DIV {
                            "DIV"
                        } else {
                            "DIVU"
                        },
                    ),
                ),
            );
        }
        match compute_r_pair(operation, a, b) {
            Some((hi, lo)) => {
                return Ok(EX_OUT::DoubleValue(hi, lo));
            },
            None => {},
        }
        let dest_regno: u32 = match &self.latch_in_RDest {
            Some(dest) => regno(dest),
            None => 0,
        };
        if operation == op::r::JALR {
            Ok(EX_OUT::DoJumpWithRA(a, emitted_at.wrapping_add(4)))
        } else if operation == op::r::JR {
            Ok(EX_OUT::DoJump(a))
        } else if operation == op::r::MFHI {
            Ok(EX_OUT::Move(HI_IDENT, dest_regno))
        } else if operation == op::r::MFLO {
            Ok(EX_OUT::Move(LO_IDENT, dest_regno))
        } else if operation == op::r::MTHI {
            Ok(EX_OUT::Move(a, HI_IDENT))
        } else if operation == op::r::MTLO {
            Ok(EX_OUT::Move(a, LO_IDENT))
        } else {
            Err(ExecutionError::unrecognized("R", operation, 0))
        }
    }

    /// Executes a J-type instruction.
    pub fn handoff_J(&self, operation: u32, immediate: u32, emitted_at: u32) -> (res: Result<
        EX_OUT,
        ExecutionError,
    >)
        ensures
            yields(res, j_output(operation, immediate, emitted_at)),
    {
        if operation == op::j::J {
            Ok(EX_OUT::DoJump(immediate))
        } else if operation == op::j::JAL {
            Ok(EX_OUT::DoJumpWithRA(immediate, emitted_at.wrapping_add(4)))
        } else {
            Err(ExecutionError::unrecognized("J", operation, 2))
        }
    }

    /// Executes one of the instructions that take no operands.
    pub fn handoff_special(&mut self, operation: u32, emitted_at: u32) -> (res: Result<
        EX_OUT,
        ExecutionError,
    >)
        ensures
            *final(self) == old(self).special(operation, emitted_at).0,
            yields(res, old(self).special(operation, emitted_at).1),
    {
        if operation == op::SYSCALL {
            self.EPC = emitted_at;
            self.latch_out_is_privileged = true;
            Ok(EX_OUT::DoJump(self.irq_handler_addr))
        } else if operation == op::NOP {
            Ok(EX_OUT::NoOutput)
        } else if operation == op::RFE {
            if !self.latch_out_is_privileged {
                return Err(ExecutionError::PrivilegeError(String::from_str("RFE")));
            }
            self.latch_out_is_privileged = false;
            Ok(EX_OUT::DoJump(self.EPC))
        } else if operation == op::HLT {
            if !self.latch_out_is_privileged {
                return Err(ExecutionError::PrivilegeError(String::from_str("HLT")));
            }
            self.latch_out_is_privileged = false;
            self.control_out_termination = true;
            Ok(EX_OUT::Abort)
        } else {
            Err(ExecutionError::unrecognized("Special", operation, 2))
        }
    }
}

impl Pipelined for Execution {
    /// An I-type or R-type instruction has come with both operands and its
    /// immediate or shift amount, a move out of HI or LO also with its
    /// destination; a J-type one with its target.
    open spec fn ready(&self) -> bool {
        match self.control_in_EXOP.0 {
            InstructionType::I => {
                &&& self.latch_in_A matches Some(a) && is_operand(a)
                &&& self.latch_in_B matches Some(b) && is_operand(b)
                &&& self.latch_in_I matches Some(imm) && imm <= 0xffff
            },
            InstructionType::R => {
                &&& self.latch_in_A matches Some(a) && is_operand(a)
                &&& self.latch_in_B matches Some(b) && is_operand(b)
                &&& self.latch_in_I matches Some(sham) && sham < 32
                &&& (self.control_in_EXOP.1 == op::r::MFHI || self.control_in_EXOP.1 == op::r::MFLO)
                    ==> self.latch_in_RDest is Some
            },
            InstructionType::J => self.latch_in_I is Some,
            InstructionType::Special => true,
        }
    }

    fn tick(&mut self) -> (res: Result<(), ExecutionError>)
        ensures
            *final(self) == old(self).ticked().0,
            match old(self).ticked().1 {
                None => res is Ok,
                Some(e) => res matches Err(x) && x@ == e,
            },
    {
        let (class, operation, emitted_at) = self.control_in_EXOP;
        let produced = match class {
            InstructionType::I => {
                match (self.latch_in_A, self.latch_in_B, self.latch_in_I) {
                    (Some(a), Some(b), Some(imm)) => self.handoff_I(
                        operation,
                        a,
                        b,
                        imm,
                        emitted_at,
                    ),
                    _ => Ok(EX_OUT::NoOutput),
                }
            },
            InstructionType::R => {
                match (self.latch_in_A, self.latch_in_B, self.latch_in_I) {
                    (Some(a), Some(b), Some(sham)) => self.handoff_R(
                        operation,
                        a,
                        b,
                        sham,
                        emitted_at,
                    ),
                    _ => Ok(EX_OUT::NoOutput),
                }
            },
            InstructionType::J => {
                match self.latch_in_I {
                    Some(imm) => self.handoff_J(operation, imm, emitted_at),
                    None => Ok(EX_OUT::NoOutput),
                }
            },
            InstructionType::Special => self.handoff_special(operation, emitted_at),
        };
        let output = match produced {
            Ok(output) => output,
            Err(e) => {
                return Err(e);
            },
        };
        self.latch_out_RDest = self.latch_in_RDest;
        self.latch_out_EX_OUT = output;
        match output {
            EX_OUT::DoJump(_) | EX_OUT::DoJumpWithRA(_, _) => {
                self.latch_out_cond = true;
            },
            EX_OUT::AwaitingLock(_, _) => {
                self.latch_out_cond = false;
                self.latch_out_RDest = None;
            },
            _ => {
                self.latch_out_cond = false;
            },
        }
        self.latch_out_instruction_ID = self.latch_in_instruction_ID;
        Ok(())
    }
}

} // verus!
