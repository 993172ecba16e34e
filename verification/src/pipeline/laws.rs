use crate::access::{loaded, stored};
use crate::alu::{
    access_size, func_field, imm_field, opcode_field, rd_field, rs_field, rt_field, sham_field,
    target_field,
};
use crate::definitions::arch::op;
use crate::definitions::errors::RegisterError;
use crate::devices::cores::pipelined_core::{ended, PipelineView};
use crate::memory::MemoryView;
use crate::devices::registers::{
    is_register, writing, Available, SuccessfulOwn, HI_IDENT, LO_IDENT, SLOTS,
};
use crate::pipeline::stages::instruction_fetch::FetchTick;
use crate::pipeline::stages::memory_stage::{MemoryStage, MemoryTick};
use crate::pipeline::stages::write_back::WriteBack;
use crate::interpreter::semantics::CoreView;
use crate::pipeline::stages::execution::{
    i_output, j_output, r_output, regno_of, Execution, EX_OUT,
};
use crate::pipeline::stages::instruction_decode::{r_destination, DecodeView, ReleaseBcast};
use vstd::prelude::*;

verus! {

// What the execute stage computes for one instruction is what the
// single-cycle core does with that instruction. The lemmas below say so
// class by class, for operands that are available. They say nothing of the
// order in which the pipeline lets instructions read and write registers.
/// An operand that holds the word `value`.
pub open spec fn available(value: u32) -> Result<Available, RegisterError> {
    Ok(Available { value })
}

/// Whether a jump of the single-cycle core that left the program counter at
/// `pc` goes on at `target`, as the fetch stage does after a jump of the
/// pipeline. Nothing is asked of a jump to address 0, after which the
/// single-cycle core goes on at address 4.
pub open spec fn lands_on(pc: u32, target: u32) -> bool {
    target != 0 ==> pc.wrapping_add(4) == target
}

/// For an R-type instruction whose operands are available and whose
/// destination is the one that the decode stage locks, the execute stage
/// hands on what the single-cycle core does: the word that it writes to the
/// destination, the pair that it leaves in HI and LO, the move that it makes
/// from or to HI or LO, the target of its jump and its return address, or
/// the error that it stops on.
pub proof fn lemma_execute_agrees_on_r(
    s: CoreView,
    code: u32,
    dest: Result<SuccessfulOwn, RegisterError>,
)
    requires
        code != op::NOP,
        regno_of(dest) == r_destination(func_field(code), rd_field(code)),
    ensures
        ({
            let a = s.reg[rs_field(code) as int];
            let b = s.reg[rt_field(code) as int];
            let rd = rd_field(code) as int;
            let after = s.after_r(code);
            match r_output(
                func_field(code),
                available(a),
                available(b),
                sham_field(code),
                s.pc,
                dest,
            ) {
                Ok(EX_OUT::Value(v)) => after.error is None && after.state == s.write_reg(
                    rd,
                    v,
                ).result_flags(v),
                Ok(EX_OUT::DoubleValue(hi, lo)) => after.error is None && after.state == (CoreView {
                    hi,
                    lo,
                    ..s
                }).result_flags(1),
                Ok(EX_OUT::DoJump(target)) => {
                    &&& after.error is None
                    &&& after.state.reg == s.reg
                    &&& lands_on(after.state.pc, target)
                },
                Ok(EX_OUT::DoJumpWithRA(target, ra)) => {
                    &&& after.error is None
                    &&& after.state.reg == s.reg.update(31, ra)
                    &&& lands_on(after.state.pc, target)
                },
                Ok(EX_OUT::Move(source, destination)) => {
                    &&& after.error is None
                    &&& if destination == HI_IDENT {
                        after.state == (CoreView { hi: source, ..s }).result_flags(1)
                    } else if destination == LO_IDENT {
                        after.state == (CoreView { lo: source, ..s }).result_flags(1)
                    } else {
                        after.state == s.write_reg(
                            destination as int,
                            if source == HI_IDENT {
                                s.hi
                            } else {
                                s.lo
                            },
                        ).result_flags(1)
                    }
                },
                Ok(_) => false,
                Err(e) => after.error == Some(e) && after.state == s,
            }
        }),
{
    assert((code & 0x0000f800u32) >> 11 < 32) by (bit_vector);
}

/// For an I-type instruction whose operands are available, the execute
/// stage hands on what the single-cycle core does: the word that it writes
/// to the destination, the target of the branch that it takes, the load or
/// the store that it makes, or the error that it stops on.
pub proof fn lemma_execute_agrees_on_i(s: CoreView, code: u32)
    requires
        code != op::RFE,
        code != op::HLT,
    ensures
        ({
            let a = s.reg[rs_field(code) as int];
            let b = s.reg[rt_field(code) as int];
            let rt = rt_field(code) as int;
            let after = s.after_i(code);
            match i_output(opcode_field(code), available(a), available(b), imm_field(code), s.pc) {
                Ok(EX_OUT::Value(v)) => after == Some(s.write_reg(rt, v).fine()),
                Ok(EX_OUT::NoOutput) => after == Some(s.fine()),
                Ok(EX_OUT::DoJump(target)) => {
                    &&& after matches Some(o)
                    &&& o.error is None
                    &&& o.state == (CoreView { pc: o.state.pc, ..s })
                    &&& o.state.pc.wrapping_add(4) == target
                },
                Ok(EX_OUT::LoadFrom(addr, size)) => after == match loaded(
                    s.mem,
                    addr,
                    size as usize,
                ) {
                    Some((mem, Ok(v))) => Some((CoreView { mem, ..s }).write_reg(rt, v).fine()),
                    Some((mem, Err(e))) => Some((CoreView { mem, ..s }).failed(e)),
                    None => None,
                },
                Ok(EX_OUT::StoreValue(word, addr, size)) => after == match stored(
                    s.mem,
                    word,
                    addr,
                    size as usize,
                ) {
                    Some((mem, None)) => Some((CoreView { mem, ..s }).fine()),
                    Some((mem, Some(e))) => Some((CoreView { mem, ..s }).failed(e)),
                    None => None,
                },
                Ok(_) => false,
                Err(e) => after == Some(s.failed(e)),
            }
        }),
{
}

/// For a jump of the J type, the execute stage hands on the target that
/// the single-cycle core jumps to and the return address that it leaves in
/// RA, or the error that it stops on.
pub proof fn lemma_execute_agrees_on_j(s: CoreView, code: u32)
    requires
        code != op::SYSCALL,
    ensures
        ({
            let after = s.after_j(code);
            match j_output(opcode_field(code), target_field(code), s.pc) {
                Ok(EX_OUT::DoJump(target)) => {
                    &&& after.error is None
                    &&& after.state.reg == s.reg
                    &&& lands_on(after.state.pc, target)
                },
                Ok(EX_OUT::DoJumpWithRA(target, ra)) => {
                    &&& after.error is None
                    &&& after.state.reg == s.reg.update(31, ra)
                    &&& lands_on(after.state.pc, target)
                },
                Ok(_) => false,
                Err(e) => after.error == Some(e) && after.state == s,
            }
        }),
{
}

/// On a syscall both cores enter privileged mode, save the address of the
/// syscall, and go on at the handler, if the handler stands at address 4 or
/// above.
pub proof fn lemma_execute_agrees_on_syscall(s: CoreView, x: Execution)
    requires
        x.irq_handler_addr == s.irq_handler_addr,
    ensures
        ({
            let after = s.after_j(op::SYSCALL);
            let (stage, out) = x.special(op::SYSCALL, s.pc);
            &&& after.error is None
            &&& stage.EPC == after.state.epc
            &&& stage.latch_out_is_privileged
            &&& after.state.mem.privileged
            &&& out matches Ok(EX_OUT::DoJump(target))
            &&& s.irq_handler_addr >= 4 ==> after.state.pc.wrapping_add(4) == target
        }),
{
}

/// A word on its way from the execute stage to the registers is not
/// changed: where the memory stage takes the word `v` for the destination
/// `regno`, which the instruction `id` owns, the memory stage and the
/// write-back stage pass it on, and the decode stage writes `v` to that
/// register and lets go of it for the instruction `id`.
pub proof fn lemma_result_reaches_its_register(
    m: MemoryStage,
    mem: MemoryView,
    w: WriteBack,
    d: DecodeView,
    v: u32,
    regno: u32,
    id: usize,
)
    requires
        m.latch_in_EX_OUT == EX_OUT::Value(v),
        m.latch_in_RDest == Some(
            Ok::<SuccessfulOwn, RegisterError>(SuccessfulOwn { register_number: regno }),
        ),
        m.latch_in_instruction_ID == id,
        is_register(regno),
        regno != 0,
        d.regs.len() == SLOTS,
        d.regs[regno as int].owner == Some(id),
    ensures
        ({
            let passed = m.ticked(mem)->0.stage;
            let back = (WriteBack {
                latch_in_WB: passed.latch_out_WB,
                latch_in_RDest: passed.latch_out_RDest,
                latch_in_instruction_ID: passed.latch_out_instruction_ID,
                ..w
            }).ticked();
            let (written, error) = (DecodeView {
                latch_in_WB_contents: back.latch_out_WB_contents,
                latch_in_RDest: back.latch_out_RDest,
                latch_in_instruction_ID: back.latch_out_instruction_ID,
                ..d
            }).written_back();
            &&& m.ticked(mem) matches Some(t) && t.error is None
            &&& error is None
            &&& written.regs[regno as int].value == v
            &&& written.regs == writing(d.regs, regno, v, id).0
            &&& written.control_out_reg_release_bcast == ReleaseBcast::FreedWithContent(id, regno, v)
        }),
{
}

/// Whether no instruction that waits has got beyond the execute stage.
pub open spec fn settled(s: PipelineView) -> bool {
    &&& s.memory.latch_in_EX_OUT !is AwaitingLock
    &&& s.memory.latch_out_WB !is AwaitingLock
    &&& s.write_back.latch_in_WB !is AwaitingLock
    &&& s.write_back.latch_out_WB_contents !is AwaitingLock
    &&& s.decode.latch_in_WB_contents !is AwaitingLock
}

/// A core starts with no instruction that waits beyond the execute stage.
pub proof fn lemma_initial_is_settled(verbose: bool)
    ensures
        settled(crate::devices::cores::pipelined_core::initial(verbose)),
{
}

/// The end of a cycle leaves no instruction that waits beyond the
/// execute stage, if the memory stage has left none on its output and the
/// write-back stage has none on its input.
proof fn lemma_after_memory_settles(s: PipelineView, m: MemoryTick)
    requires
        m.stage.latch_out_WB !is AwaitingLock,
        s.write_back.latch_in_WB !is AwaitingLock,
        s.after_memory(m).error is None,
    ensures
        settled(s.after_memory(m).state),
{
}

/// A cycle that succeeds after the fetch stage has left `f` leaves no
/// instruction that waits beyond the execute stage, if none had got beyond
/// it before.
proof fn lemma_going_on_settles(s: PipelineView, f: FetchTick, after: PipelineView, counted: bool)
    requires
        settled(s),
        s.goes_on_to(f, after, Ok(counted)),
    ensures
        settled(after),
{
    match s.through_decode(f) {
        Ok(s2) => {
            assert(s2.write_back.latch_in_WB !is AwaitingLock);
            assert(s2.memory.latch_in_EX_OUT !is AwaitingLock);
            match s2.through_execute() {
                Ok(s3) => match s3.memory.ticked(s3.mem) {
                    Some(m) => {
                        assert(m.stage.latch_out_WB !is AwaitingLock);
                        lemma_after_memory_settles(s3, m);
                    },
                    None => {
                        let mem = MemoryView {
                            privileged: s3.memory.latch_in_is_privileged,
                            ..s3.mem
                        };
                        let out = choose|out: EX_OUT|
                            {
                                &&& out is Value || out is NoOutput
                                &&& ended(
                                    Ok(counted),
                                    after,
                                    #[trigger] s3.after_memory(
                                        MemoryTick {
                                            stage: s3.memory.passed(out),
                                            mem,
                                            error: None,
                                        },
                                    ),
                                )
                            };
                        lemma_after_memory_settles(
                            s3,
                            MemoryTick { stage: s3.memory.passed(out), mem, error: None },
                        );
                    },
                },
                Err(_) => {},
            }
        },
        Err(_) => {},
    }
}

/// An instruction that waits never leaves the execute stage: if none has
/// got beyond it before a cycle that succeeds, none has after the cycle,
/// whatever the devices answered in it.
pub proof fn lemma_waiting_stays_in_execute(s: PipelineView, after: PipelineView, counted: bool)
    requires
        settled(s),
        s.cycles_to(after, Ok(counted)),
    ensures
        settled(after),
{
    reveal(PipelineView::cycles_to);
    reveal(PipelineView::cycled);
    reveal(PipelineView::device_cycled);
    match s.fetch.ticked(s.mem) {
        Some(f) => {
            assert(s.goes_on_to(f, after, Ok(counted)));
            lemma_going_on_settles(s, f, after, counted);
        },
        None => {
            let code = choose|code: u32|
                s.goes_on_to(#[trigger] s.fetch.handed(s.mem, code), after, Ok(counted));
            lemma_going_on_settles(s, s.fetch.handed(s.mem, code), after, counted);
        },
    }
}

} // verus!
