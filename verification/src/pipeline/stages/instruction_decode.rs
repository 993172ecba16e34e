use super::execution::EX_OUT;
use crate::alu::{
    class_of, classify, func_field, func_of, imm_field, imm_of, is_branch, is_store, opcode_field,
    opcode_of, rd_field, rd_of, rs_field, rs_of, rt_field, rt_of, sham_field, sham_of,
    target_field, target_of,
};
use crate::definitions::arch::op;
use crate::definitions::arch::op::InstructionType;
use crate::definitions::errors::{ExecutionError, ExecutionErrorView, RegisterError};
use crate::definitions::text::{decimal, decimal_text};
use crate::devices::registers::{
    is_register, locking, reading, writing, Available, RegisterState, Registers, SuccessfulOwn,
    HI_IDENT, LO_IDENT,
};
use crate::pipeline::pipelined::Pipelined;
use vstd::prelude::*;
use vstd::string::StringExecFns;

verus! {

/// The number of RA as the scoreboard knows it.
pub const RA_IDENT: u32 = 31;

/// What the decode stage lets every other stage know about the registers
/// that it has just released.
#[derive(Debug, Copy, Clone, PartialEq, Eq, Structural)]
pub enum ReleaseBcast {
    NoRelease,
    /// The handle of the instruction that let go, and the register.
    Freed(usize, u32),
    /// The handle, the register and the word that was written to it.
    FreedWithContent(usize, u32, u32),
    /// The handle and the words that were written to HI and to LO.
    FreedWithContentDouble(usize, u32, u32),
}

/// The decode stage: it holds the registers, writes results back to them,
/// and reads operands and locks destinations for the instruction that it decodes.
pub struct InstructionDecode {
    pub latch_out_new_pc: u32,
    pub latch_out_A: Option<Result<Available, RegisterError>>,
    pub latch_out_B: Option<Result<Available, RegisterError>>,
    pub latch_out_I: Option<u32>,
    pub latch_out_RDest: Option<Result<SuccessfulOwn, RegisterError>>,
    pub latch_out_instruction_ID: usize,
    pub control_out_EXOP: (InstructionType, u32, u32),
    pub latch_in_new_pc: u32,
    pub latch_in_IR: (u32, u32),
    pub latch_in_RDest: Option<SuccessfulOwn>,
    pub latch_in_WB_contents: EX_OUT,
    pub latch_in_instruction_ID: usize,
    pub control_out_reg_release_bcast: ReleaseBcast,
    pub control_in_stall: bool,
    pub verbose: bool,
    pub regs: Registers,
    pub timestamp: usize,
}

/// The decode stage, with its registers as the scoreboard sees them.
pub struct DecodeView {
    pub latch_out_new_pc: u32,
    pub latch_out_A: Option<Result<Available, RegisterError>>,
    pub latch_out_B: Option<Result<Available, RegisterError>>,
    pub latch_out_I: Option<u32>,
    pub latch_out_RDest: Option<Result<SuccessfulOwn, RegisterError>>,
    pub latch_out_instruction_ID: usize,
    pub control_out_EXOP: (InstructionType, u32, u32),
    pub latch_in_new_pc: u32,
    pub latch_in_IR: (u32, u32),
    pub latch_in_RDest: Option<SuccessfulOwn>,
    pub latch_in_WB_contents: EX_OUT,
    pub latch_in_instruction_ID: usize,
    pub control_out_reg_release_bcast: ReleaseBcast,
    pub control_in_stall: bool,
    pub verbose: bool,
    pub regs: Seq<RegisterState>,
    pub timestamp: usize,
}

impl View for InstructionDecode {
    type V = DecodeView;

    open spec fn view(&self) -> DecodeView {
        DecodeView {
            latch_out_new_pc: self.latch_out_new_pc,
            latch_out_A: self.latch_out_A,
            latch_out_B: self.latch_out_B,
            latch_out_I: self.latch_out_I,
            latch_out_RDest: self.latch_out_RDest,
            latch_out_instruction_ID: self.latch_out_instruction_ID,
            control_out_EXOP: self.control_out_EXOP,
            latch_in_new_pc: self.latch_in_new_pc,
            latch_in_IR: self.latch_in_IR,
            latch_in_RDest: self.latch_in_RDest,
            latch_in_WB_contents: self.latch_in_WB_contents,
            latch_in_instruction_ID: self.latch_in_instruction_ID,
            control_out_reg_release_bcast: self.control_out_reg_release_bcast,
            control_in_stall: self.control_in_stall,
            verbose: self.verbose,
            regs: self.regs@,
            timestamp: self.timestamp,
        }
    }
}

pub open spec fn unowned(regno: u32) -> ExecutionErrorView {
    ExecutionErrorView::RegisterError(
        "The instruction tried to write to register "@ + decimal_text(regno as nat)
            + ", which no instruction owns"@,
    )
}

/// Whether `func` is one of the multiplications and divisions.
pub open spec fn writes_pair(func: u32) -> bool {
    func == op::r::DIV || func == op::r::DIVU || func == op::r::MULT || func == op::r::MULTU
}

/// The register that an R-type instruction locks as its destination: HI
/// for a multiplication or a division (which locks LO with it) and for a
/// move to HI, LO for a move to LO, RA for a jump and link, `rd` for any other.
pub open spec fn r_destination(func: u32, rd: u32) -> u32 {
    if writes_pair(func) || func == op::r::MTHI {
        HI_IDENT
    } else if func == op::r::MTLO {
        LO_IDENT
    } else if func == op::r::JALR {
        RA_IDENT
    } else {
        rd
    }
}

impl DecodeView {
    /// The stage after the instruction on the write-back latch has written
    /// `value` to the register `regno`, and the error if it may not: the
    /// register is owned by no instruction, or by another.
    pub open spec fn wrote(self, regno: u32, value: u32) -> (DecodeView, Option<ExecutionErrorView>) {
        if regno != 0 && self.regs[regno as int].owner is None {
            (self, Some(unowned(regno)))
        } else {
            let (regs, res) = writing(self.regs, regno, value, self.latch_in_instruction_ID);
            (
                DecodeView { regs, ..self },
                match res {
                    Ok(_) => None,
                    Err(e) => Some(ExecutionErrorView::of_register_error(e)),
                },
            )
        }
    }

    /// The stage with `bcast` on its broadcast output, unless `error` stopped it.
    pub open spec fn announced(
        done: (DecodeView, Option<ExecutionErrorView>),
        bcast: ReleaseBcast,
    ) -> (DecodeView, Option<ExecutionErrorView>) {
        if done.1 is Some {
            done
        } else {
            (DecodeView { control_out_reg_release_bcast: bcast, ..done.0 }, None)
        }
    }

    /// The stage after the result on the write-back latch has been written
    /// to the registers and announced.
    pub open spec fn written_back(self) -> (DecodeView, Option<ExecutionErrorView>) {
        let id = self.latch_in_instruction_ID;
        match self.latch_in_WB_contents {
            EX_OUT::Value(v) => {
                let regno = self.latch_in_RDest->0.register_number;
                Self::announced(self.wrote(regno, v), ReleaseBcast::FreedWithContent(id, regno, v))
            },
            EX_OUT::DoubleValue(hi, lo) => {
                let first = self.wrote(HI_IDENT, hi);
                if first.1 is Some {
                    first
                } else {
                    Self::announced(
                        first.0.wrote(LO_IDENT, lo),
                        ReleaseBcast::FreedWithContentDouble(id, hi, lo),
                    )
                }
            },
            EX_OUT::DoJumpWithRA(_, rp) => Self::announced(
                self.wrote(RA_IDENT, rp),
                ReleaseBcast::FreedWithContent(id, RA_IDENT, rp),
            ),
            EX_OUT::Move(source, destination) => {
                let contents = if destination == HI_IDENT || destination == LO_IDENT {
                    source
                } else {
                    self.regs[source as int].value
                };
                Self::announced(
                    self.wrote(destination, contents),
                    ReleaseBcast::FreedWithContent(id, destination, contents),
                )
            },
            _ => (DecodeView { control_out_reg_release_bcast: ReleaseBcast::NoRelease, ..self }, None),
        }
    }

    /// The stage after it has decoded the R-type instruction `code` under the handle `id`.
    pub open spec fn decoded_r(self, code: u32, id: usize) -> DecodeView {
        let emitted_at = self.latch_in_IR.1;
        let func = func_field(code);
        if code == op::NOP {
            DecodeView {
                latch_out_A: None,
                latch_out_B: None,
                latch_out_RDest: None,
                control_out_EXOP: (InstructionType::Special, func, emitted_at),
                ..self
            }
        } else {
            let rs = reading(self.regs, rs_field(code));
            let rt = reading(self.regs, rt_field(code));
            let (regs, rd) = locking(self.regs, r_destination(func, rd_field(code)), id);
            DecodeView {
                latch_out_A: Some(rs),
                latch_out_B: Some(rt),
                latch_out_I: Some(sham_field(code)),
                latch_out_RDest: Some(rd),
                control_out_EXOP: (InstructionType::R, func, emitted_at),
                regs: if writes_pair(func) {
                    locking(regs, LO_IDENT, id).0
                } else {
                    regs
                },
                ..self
            }
        }
    }

    /// The stage after it has decoded the I-type instruction `code` under the handle `id`.
    pub open spec fn decoded_i(self, code: u32, id: usize) -> DecodeView {
        let emitted_at = self.latch_in_IR.1;
        let func = opcode_field(code);
        if code == op::RFE || code == op::HLT {
            DecodeView { control_out_EXOP: (InstructionType::Special, code, emitted_at), ..self }
        } else {
            let rs = reading(self.regs, rs_field(code));
            let rt = reading(self.regs, rt_field(code));
            let (regs, dest) = locking(
                self.regs,
                if is_branch(func) || is_store(func) {
                    0
                } else {
                    rt_field(code)
                },
                id,
            );
            DecodeView {
                latch_out_A: Some(rs),
                latch_out_B: Some(rt),
                latch_out_I: Some(imm_field(code)),
                latch_out_RDest: Some(dest),
                control_out_EXOP: (InstructionType::I, func, emitted_at),
                regs,
                ..self
            }
        }
    }

    /// The stage after it has decoded the J-type instruction `code` under the handle `id`.
    pub open spec fn decoded_j(self, code: u32, id: usize) -> DecodeView {
        let emitted_at = self.latch_in_IR.1;
        let func = opcode_field(code);
        if code == op::SYSCALL {
            DecodeView { control_out_EXOP: (InstructionType::Special, code, emitted_at), ..self }
        } else {
            let (regs, dest) = if func == op::j::JAL {
                (locking(self.regs, RA_IDENT, id).0, Some(locking(self.regs, RA_IDENT, id).1))
            } else {
                (self.regs, None)
            };
            DecodeView {
                latch_out_A: None,
                latch_out_B: None,
                latch_out_I: Some(target_field(code)),
                latch_out_RDest: dest,
                control_out_EXOP: (InstructionType::J, func, emitted_at),
                regs,
                ..self
            }
        }
    }

    /// The stage after it has decoded the instruction on its input latch
    /// under the next handle. A stalled stage does no more than drop the stall.
    pub open spec fn decoded(self) -> DecodeView {
        if self.control_in_stall {
            DecodeView { control_in_stall: false, ..self }
        } else {
            let id = self.timestamp;
            let code = self.latch_in_IR.0;
            let s = DecodeView {
                timestamp: id.wrapping_add(1),
                latch_out_new_pc: self.latch_in_new_pc,
                ..self
            };
            let done = match class_of(code) {
                InstructionType::R => s.decoded_r(code, id),
                InstructionType::J => s.decoded_j(code, id),
                _ => s.decoded_i(code, id),
            };
            DecodeView { latch_out_instruction_ID: id, ..done }
        }
    }

    /// The stage after a tick, and the error if the write-back failed: the
    /// result on the write-back latch is written first, then the
    /// instruction on the input latch is decoded.
    pub open spec fn ticked(self) -> (DecodeView, Option<ExecutionErrorView>) {
        let (s, e) = self.written_back();
        if e is Some {
            (s, e)
        } else {
            (s.decoded(), None)
        }
    }
}

fn valid_register(regno: u32) -> (r: bool)
    ensures
        r == is_register(regno),
{
    regno < 32 || regno == HI_IDENT || regno == LO_IDENT
}

impl InstructionDecode {
    pub fn new(regs: Registers, verbose: bool) -> (stage: InstructionDecode)
        ensures
            stage@ == (DecodeView {
                latch_out_new_pc: 0,
                latch_out_A: None,
                latch_out_B: None,
                latch_out_I: None,
                latch_out_RDest: None,
                latch_out_instruction_ID: 0,
                control_out_EXOP: (InstructionType::Special, 0u32, 0u32),
                latch_in_new_pc: 0,
                latch_in_IR: (0u32, 0u32),
                latch_in_RDest: Some(SuccessfulOwn { register_number: 0 }),
                latch_in_WB_contents: EX_OUT::NoOutput,
                latch_in_instruction_ID: 0,
                control_out_reg_release_bcast: ReleaseBcast::NoRelease,
                control_in_stall: false,
                verbose,
                regs: regs@,
                timestamp: 0,
            }),
            stage.regs == regs,
    {
        InstructionDecode {
            latch_out_new_pc: 0,
            latch_out_A: None,
            latch_out_B: None,
            latch_out_I: None,
            latch_out_RDest: None,
            latch_out_instruction_ID: 0,
            control_out_EXOP: (InstructionType::Special, 0, 0),
            latch_in_new_pc: 0,
            latch_in_IR: (0, 0),
            latch_in_RDest: Some(SuccessfulOwn { register_number: 0 }),
            latch_in_WB_contents: EX_OUT::NoOutput,
            latch_in_instruction_ID: 0,
            control_out_reg_release_bcast: ReleaseBcast::NoRelease,
            control_in_stall: false,
            verbose,
            regs,
            timestamp: 0,
        }
    }

    /// Tests whether the stage can work on what is on its input latches.
    pub fn is_ready(&self) -> (r: bool)
        requires
            self.regs.wf(),
        ensures
            r == self.ready(),
    {
        match self.latch_in_WB_contents {
            EX_OUT::AwaitingLock(_, _) => false,
            EX_OUT::Value(_) => match self.latch_in_RDest {
                Some(own) => valid_register(own.register_number),
                None => false,
            },
            EX_OUT::Move(source, destination) => valid_register(destination) && (destination
                == HI_IDENT || destination == LO_IDENT || source == HI_IDENT || source
                == LO_IDENT),
            _ => true,
        }
    }

    /// Writes `value` to the register `regno` for the instruction on the
    /// write-back latch.
    fn write_back(&mut self, regno: u32, value: u32) -> (res: Result<(), ExecutionError>)
        requires
            old(self).regs.wf(),
            is_register(regno),
        ensures
            final(self).regs.wf(),
            final(self)@ == old(self)@.wrote(regno, value).0,
            match old(self)@.wrote(regno, value).1 {
                None => res is Ok,
                Some(e) => res matches Err(x) && x@ == e,
            },
    {
        if regno != 0 && self.regs.owner_of(regno).is_none() {
            let mut s = String::from_str("The instruction tried to write to register ");
            s.append(decimal(regno as u64).as_str());
            s.append(", which no instruction owns");
            return Err(ExecutionError::RegisterError(s));
        }
        match self.regs.write_and_unlock(regno, value, self.latch_in_instruction_ID) {
            Ok(_) => Ok(()),
            Err(e) => Err(ExecutionError::from(e)),
        }
    }

    /// Writes the result on the write-back latch to the registers and
    /// announces what was released.
    fn release(&mut self) -> (res: Result<(), ExecutionError>)
        requires
            old(self).ready(),
        ensures
            final(self).regs.wf(),
            final(self)@ == old(self)@.written_back().0,
            match old(self)@.written_back().1 {
                None => res is Ok,
                Some(e) => res matches Err(x) && x@ == e,
            },
    {
        let id: usize = self.latch_in_instruction_ID;
        match self.latch_in_WB_contents {
            EX_OUT::Value(v) => {
                let register_number: u32 = match self.latch_in_RDest {
                    Some(own) => own.register_number,
                    None => 0,
                };
                match self.write_back(register_number, v) {
                    Ok(_) => {},
                    Err(e) => {
                        return Err(e);
                    },
                }
                self.control_out_reg_release_bcast = ReleaseBcast::FreedWithContent(
                    id,
                    register_number,
                    v,
                );
            },
            EX_OUT::DoubleValue(hi, lo) => {
                match self.write_back(HI_IDENT, hi) {
                    Ok(_) => {},
                    Err(e) => {
                        return Err(e);
                    },
                }
                match self.write_back(LO_IDENT, lo) {
                    Ok(_) => {},
                    Err(e) => {
                        return Err(e);
                    },
                }
                self.control_out_reg_release_bcast = ReleaseBcast::FreedWithContentDouble(
                    id,
                    hi,
                    lo,
                );
            },
            EX_OUT::DoJumpWithRA(_jtarg, rp) => {
                match self.write_back(RA_IDENT, rp) {
                    Ok(_) => {},
                    Err(e) => {
                        return Err(e);
                    },
                }
                self.control_out_reg_release_bcast = ReleaseBcast::FreedWithContent(
                    id,
                    RA_IDENT,
                    rp,
                );
            },
            EX_OUT::Move(source, destination) => {
                let contents: u32 = if destination == HI_IDENT || destination == LO_IDENT {
                    source
                } else {
                    self.regs.value_of(source)
                };
                match self.write_back(destination, contents) {
                    Ok(_) => {},
                    Err(e) => {
                        return Err(e);
                    },
                }
                self.control_out_reg_release_bcast = ReleaseBcast::FreedWithContent(
                    id,
                    destination,
                    contents,
                );
            },
            _ => {
                self.control_out_reg_release_bcast = ReleaseBcast::NoRelease;
            },
        }
        Ok(())
    }

    /// Decodes an R-type instruction: reads both operands and locks the destination.
    fn handoff_R(&mut self, code: u32, accessor_id: usize)
        requires
            old(self).regs.wf(),
        ensures
            final(self).regs.wf(),
            final(self)@ == old(self)@.decoded_r(code, accessor_id),
    {
        let func: u32 = func_of(code);
        let emitted_at: u32 = self.latch_in_IR.1;
        if code == op::NOP {
            self.latch_out_A = None;
            self.latch_out_B = None;
            self.latch_out_RDest = None;
            self.control_out_EXOP = (InstructionType::Special, func, emitted_at);
            return ;
        }
        let rs = self.regs.fetch(rs_of(code));
        let rt = self.regs.fetch(rt_of(code));
        let pair = func == op::r::DIV || func == op::r::DIVU || func == op::r::MULT || func
            == op::r::MULTU;
        let destination: u32 = if pair || func == op::r::MTHI {
            HI_IDENT
        } else if func == op::r::MTLO {
            LO_IDENT
        } else if func == op::r::JALR {
            RA_IDENT
        } else {
            rd_of(code)
        };
        let rd = self.regs.lock_for_write(destination, accessor_id);
        if pair {
            let _ = self.regs.lock_for_write(LO_IDENT, accessor_id);
        }
        self.latch_out_A = Some(rs);
        self.latch_out_B = Some(rt);
        self.latch_out_I = Some(sham_of(code));
        self.latch_out_RDest = Some(rd);
        self.control_out_EXOP = (InstructionType::R, func, emitted_at);
    }

    /// Decodes an I-type instruction: reads both operands, and locks the
    /// destination unless the instruction is a branch or a store.
    fn handoff_I(&mut self, code: u32, accessor_id: usize)
        requires
            old(self).regs.wf(),
        ensures
            final(self).regs.wf(),
            final(self)@ == old(self)@.decoded_i(code, accessor_id),
    {
        let emitted_at: u32 = self.latch_in_IR.1;
        if code == op::RFE || code == op::HLT {
            self.control_out_EXOP = (InstructionType::Special, code, emitted_at);
            return ;
        }
        let func: u32 = opcode_of(code);
        let rs = self.regs.fetch(rs_of(code));
        let rt = self.regs.fetch(rt_of(code));
        let reads_only = func == op::i::BEQ || func == op::i::BNE || func == op::i::BGTZ || func
            == op::i::BLEZ || func == op::i::SB || func == op::i::SH || func == op::i::SW;
        let destination: u32 = if reads_only {
            0
        } else {
            rt_of(code)
        };
        let dest = self.regs.lock_for_write(destination, accessor_id);
        self.latch_out_A = Some(rs);
        self.latch_out_B = Some(rt);
        self.latch_out_I = Some(imm_of(code));
        self.latch_out_RDest = Some(dest);
        self.control_out_EXOP = (InstructionType::I, func, emitted_at);
    }

    /// Decodes a J-type instruction. A jump and link locks RA.
    fn handoff_J(&mut self, code: u32, accessor_id: usize)
        requires
            old(self).regs.wf(),
        ensures
            final(self).regs.wf(),
            final(self)@ == old(self)@.decoded_j(code, accessor_id),
    {
        let emitted_at: u32 = self.latch_in_IR.1;
        if code == op::SYSCALL {
            self.control_out_EXOP = (InstructionType::Special, code, emitted_at);
            return ;
        }
        let func: u32 = opcode_of(code);
        let jump_target: u32 = target_of(code);
        let dest = if func == op::j::JAL {
            Some(self.regs.lock_for_write(RA_IDENT, accessor_id))
        } else {
            None
        };
        self.latch_out_A = None;
        self.latch_out_B = None;
        self.latch_out_I = Some(jump_target);
        self.latch_out_RDest = dest;
        self.control_out_EXOP = (InstructionType::J, func, emitted_at);
    }

    /// Decodes the instruction on the input latch.
    fn decode(&mut self)
        requires
            old(self).regs.wf(),
        ensures
            final(self).regs.wf(),
            final(self)@ == old(self)@.decoded(),
    {
        if self.control_in_stall {
            self.control_in_stall = false;
            return ;
        }
        let id: usize = self.timestamp;
        self.timestamp = self.timestamp.wrapping_add(1);
        self.latch_out_new_pc = self.latch_in_new_pc;
        let code: u32 = self.latch_in_IR.0;
        match classify(code) {
            InstructionType::R => self.handoff_R(code, id),
            InstructionType::J => self.handoff_J(code, id),
            _ => self.handoff_I(code, id),
        }
        self.latch_out_instruction_ID = id;
    }
}

impl Pipelined for InstructionDecode {
    /// The registers are those of a scoreboard, and what has come for
    /// write-back can be written: no instruction that still waits, a word
    /// only with the register that it is for, and a move only between a
    /// general register and HI or LO.
    open spec fn ready(&self) -> bool {
        &&& self.regs.wf()
        &&& match self.latch_in_WB_contents {
            EX_OUT::AwaitingLock(_, _) => false,
            EX_OUT::Value(_) => self.latch_in_RDest matches Some(own) && is_register(
                own.register_number,
            ),
            EX_OUT::Move(source, destination) => is_register(destination) && (destination
                == HI_IDENT || destination == LO_IDENT || source == HI_IDENT || source
                == LO_IDENT),
            _ => true,
        }
    }

    fn tick(&mut self) -> (res: Result<(), ExecutionError>)
        ensures
            final(self).regs.wf(),
            final(self)@ == old(self)@.ticked().0,
            match old(self)@.ticked().1 {
                None => res is Ok,
                Some(e) => res matches Err(x) && x@ == e,
            },
    {
        match self.release() {
            Ok(_) => {},
            Err(e) => {
                return Err(e);
            },
        }
        self.decode();
        Ok(())
    }
}

} // verus!
