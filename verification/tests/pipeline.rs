use mips_emulator::definitions::arch::reg_names;
use mips_emulator::definitions::arch::MODE_FLAG;
use mips_emulator::definitions::arch::op::InstructionType;
use mips_emulator::definitions::errors::{ExecutionError, MemError, RegisterError};
use mips_emulator::definitions::stats;
use mips_emulator::devices::cores::core_traits::{Privileged, Runnable};
use mips_emulator::devices::cores::pipelined_core::Core;
use mips_emulator::devices::registers::{Available, SuccessfulOwn, HI_IDENT, LO_IDENT};
use mips_emulator::devices::MemoryMapped;
use mips_emulator::interpreter;
use mips_emulator::pipeline::stages::execution::{Execution, EX_OUT};

fn r(rs: u32, rt: u32, rd: u32, sham: u32, func: u32) -> u32 {
    (rs << 21) | (rt << 16) | (rd << 11) | (sham << 6) | func
}

fn i(op: u32, rs: u32, rt: u32, imm: u32) -> u32 {
    (op << 26) | (rs << 21) | (rt << 16) | (imm & 0xffff)
}

fn j(op: u32, target: u32) -> u32 {
    (op << 26) | ((target >> 2) & 0x03ff_ffff)
}

const HLT: u32 = 0x42000010;
const NOP: u32 = 0;
const BASE: u32 = 0x1000;

/// `program`, followed by what lets its last results reach the registers
/// before the core halts.
fn drained(program: &[u32]) -> Vec<u32> {
    let mut p = program.to_vec();
    p.extend_from_slice(&[NOP, NOP, NOP, HLT]);
    p
}

fn pipelined(program: &[u32], fuel: u64) -> (Core, Result<bool, ExecutionError>, stats::Stats) {
    let mut c = Core::new(false);
    c.held_mem.set_privileged(true);
    for (n, word) in drained(program).iter().enumerate() {
        c.held_mem.store(BASE as usize + 4 * n, 4, &word.to_be_bytes()).unwrap();
    }
    c.held_mem.set_privileged(false);
    c.IF.set_pc(BASE);
    c.set_privilege(true);
    let mut stat = stats::new(5);
    let res = c.run(&mut stat, fuel);
    (c, res, stat)
}

fn interpreted(program: &[u32], fuel: u64) -> interpreter::Core {
    let mut c = interpreter::Core::new(false);
    c.mem.set_privileged(true);
    c.set_flag(true, MODE_FLAG);
    for (n, word) in drained(program).iter().enumerate() {
        c.mem.store(BASE as usize + 4 * n, 4, &word.to_be_bytes()).unwrap();
    }
    c.PC = BASE;
    let mut stat = stats::new(2);
    assert!(c.run(&mut stat, fuel).unwrap());
    c
}

/// Runs `program` on both cores and holds their registers against each other.
fn agree(program: &[u32]) -> (Core, interpreter::Core) {
    let (mut p, res, _) = pipelined(program, 10_000);
    assert_eq!(res.unwrap(), true);
    let s = interpreted(program, 10_000);
    for n in 0..32u32 {
        assert_eq!(
            p.ID.regs.fetch(n),
            Ok(Available { value: s.reg[n as usize] }),
            "register {}",
            n
        );
    }
    assert_eq!(p.ID.regs.fetch(HI_IDENT), Ok(Available { value: s.HI }));
    assert_eq!(p.ID.regs.fetch(LO_IDENT), Ok(Available { value: s.LO }));
    let mut s = s;
    let len = p.held_mem.size().min(s.mem.size());
    p.held_mem.set_privileged(true);
    s.mem.set_privileged(true);
    assert_eq!(p.held_mem.load(0, len).unwrap(), s.mem.load(0, len).unwrap());
    (p, s)
}

#[test]
fn backwards_jump() {
    let mut c: Core = Core::new(true);

    let start = 0x00000010;
    let hlt = [0x42, 0x00, 0x00, 0x10]; //hlt
    let backj = [0x08, 0x00, 0x00, 0x04]; // jmp -1

    c.held_mem.set_privileged(true);
    c.held_mem.store(start, 4, &hlt).unwrap();
    c.held_mem.store(start + 4, 4, &backj).unwrap();
    c.IF.set_pc(start as u32);
    c.held_mem.set_privileged(false);

    c.set_privilege(true);
    let mut stat = stats::new(5);
    assert!(c.run(&mut stat, 1000).unwrap());
    // the halt was fetched, decoded and executed
    assert_eq!(stat.cycle_count, 3);
    assert!(c.EX.control_out_termination);
}

#[test]
fn a_new_pipelined_core() {
    let mut c = Core::new(true);
    assert!(c.verbose);
    assert_eq!(c.IF.get_pc(), 0u32.wrapping_sub(4));
    assert_eq!(c.ID.regs.fetch(reg_names::SP as u32), Ok(Available { value: 180 }));
    assert_eq!(c.ID.regs.fetch(1), Ok(Available { value: 0 }));
    assert!(!c.EX.control_out_termination);
    assert!(c.held_mem.store(0, 1, &[0]).is_err());
    let mut stat = stats::new(5);
    assert_eq!(stat.instruction_count, -3);
    assert_eq!(stat.cycle_count, 0);
    // without fuel nothing runs
    assert_eq!(c.run(&mut stat, 0).unwrap(), false);
    assert_eq!(stat.cycle_count, 0);
}

#[test]
fn unprivileged_halt_in_the_pipeline() {
    let mut c = Core::new(false);
    c.held_mem.store(BASE as usize, 4, &HLT.to_be_bytes()).unwrap();
    c.IF.set_pc(BASE);
    let mut stat = stats::new(5);
    match c.run(&mut stat, 100) {
        Err(ExecutionError::PrivilegeError(name)) => assert_eq!(name, "HLT"),
        other => panic!("{:?}", other),
    }
}

#[test]
fn independent_instructions() {
    agree(&[
        i(0x08, 0, 8, 5),
        i(0x08, 0, 9, 7),
        i(0x0d, 0, 10, 0xff00),
        i(0x08, 0, 11, 0xffff),
        NOP,
        NOP,
        r(8, 9, 12, 0, 0x21),
        r(10, 11, 13, 0, 0x24),
        r(0, 10, 14, 4, 0x00),
    ]);
}

#[test]
fn results_are_waited_for() {
    let (p, _) = agree(&[
        i(0x08, 0, 8, 5),       // r8 = 5
        r(8, 8, 9, 0, 0x21),    // r9 = r8 + r8
        r(9, 8, 10, 0, 0x21),   // r10 = r9 + r8
        r(10, 10, 11, 0, 0x21), // r11 = r10 + r10
        i(0x08, 11, 12, 1),     // r12 = r11 + 1
    ]);
    assert_eq!(p.ID.regs.value_of(12), 31);
}

#[test]
fn a_register_is_read_from_its_owner() {
    // r10 is written twice in a row and read at once: the read names the
    // owner of the register, which is the first of the two writers
    let program = [
        i(0x08, 0, 10, 15),     // r10 = 15
        r(10, 10, 10, 0, 0x21), // r10 = r10 + r10
        i(0x08, 10, 8, 1),      // r8 = r10 + 1
    ];
    let (p, res, _) = pipelined(&program, 1000);
    assert!(res.unwrap());
    assert_eq!(p.ID.regs.value_of(10), 30);
    assert_eq!(p.ID.regs.value_of(8), 16);
    assert_eq!(interpreted(&program, 1000).reg[8], 31);
}

#[test]
fn stores_and_loads() {
    agree(&[
        i(0x0d, 0, 8, 0x2000),  // r8 = 0x2000
        i(0x0d, 0, 14, 0xbeef), // r14 = 0xbeef
        r(0, 14, 15, 16, 0x00), // r15 = r14 << 16
        i(0x0d, 15, 9, 0xdead), // r9 = r15 | 0xdead
        i(0x2b, 8, 9, 4),       // sw r9, 4(r8)
        i(0x23, 8, 10, 4),      // lw r10, 4(r8)
        i(0x29, 8, 10, 8),      // sh r10, 8(r8)
        i(0x28, 8, 10, 12),     // sb r10, 12(r8)
        i(0x21, 8, 11, 4),      // lh r11, 4(r8)
        i(0x24, 8, 12, 7),      // lbu r12, 7(r8)
        r(11, 12, 13, 0, 0x21), // r13 = r11 + r12
    ]);
}

#[test]
fn branches_and_loops() {
    agree(&[
        i(0x08, 0, 8, 4),       // r8 = 4
        i(0x08, 0, 9, 0),       // r9 = 0
        // loop:
        r(9, 8, 9, 0, 0x21),    // r9 += r8
        i(0x08, 8, 8, 0xffff),  // r8 -= 1
        i(0x05, 8, 0, 0xfffd),  // bne r8, r0, loop
        i(0x08, 0, 10, 1),      // r10 = 1
        i(0x04, 0, 0, 1),       // beq r0, r0, +1
        i(0x08, 0, 11, 1),      // skipped
        i(0x08, 0, 12, 1),      // r12 = 1
    ]);
}

#[test]
fn calls_and_returns() {
    agree(&[
        j(3, BASE + 16),        // jal f
        i(0x08, 0, 9, 1),       // r9 = 1
        j(2, BASE + 24),        // j end
        NOP,
        // f:
        i(0x08, 0, 8, 7),       // r8 = 7
        r(31, 0, 0, 0, 0x08),   // jr ra
        // end:
        i(0x08, 0, 10, 2),      // r10 = 2
    ]);
}

#[test]
fn products_and_quotients() {
    agree(&[
        i(0x08, 0, 8, 0xfff9),  // r8 = -7
        i(0x08, 0, 9, 3),       // r9 = 3
        r(8, 9, 0, 0, 0x18),    // mult r8, r9
        r(0, 0, 10, 0, 0x10),   // mfhi r10
        r(0, 0, 11, 0, 0x12),   // mflo r11
        r(8, 9, 0, 0, 0x1a),    // div r8, r9
        r(0, 0, 12, 0, 0x10),   // mfhi r12
        r(0, 0, 13, 0, 0x12),   // mflo r13
        r(9, 0, 0, 0, 0x11),    // mthi r9
        r(8, 0, 0, 0, 0x13),    // mtlo r8
    ]);
}

#[test]
fn division_by_zero_in_the_pipeline() {
    let (_, res, _) = pipelined(&[i(0x08, 0, 8, 7), r(8, 0, 0, 0, 0x1b)], 1000);
    match res {
        Err(ExecutionError::DivisionByZero(name)) => assert_eq!(name, "DIVU"),
        other => panic!("{:?}", other),
    }
}

#[test]
fn syscall_exit_in_the_pipeline() {
    let mut c = Core::new(false);
    let program = [i(0x08, 0, 2, 10), 0x68000000];
    for (n, word) in program.iter().enumerate() {
        c.held_mem.store(0xff0f8 + 4 * n, 4, &word.to_be_bytes()).unwrap();
    }
    c.IF.set_pc(0xff0f8);
    let mut stat = stats::new(5);
    // the handler finds the code for exit in V0 and halts
    assert!(c.run(&mut stat, 1000).unwrap());
    assert_eq!(c.EX.EPC, 0xff0fc);
    assert_eq!(c.ID.regs.value_of(reg_names::V0 as u32), 10);
    assert_eq!(c.ID.regs.value_of(reg_names::K0 as u32), 10);
}

#[test]
fn latches_that_a_stage_cannot_work_on_end_the_cycle() {
    let text = |stage: &str| format!("The latches of the {} stage hold what it cannot work on", stage);
    // a destination that is still locked reaches the write-back stage
    let mut c = Core::new(false);
    c.IF.set_pc(BASE);
    c.WB.latch_in_RDest = Some(Err(RegisterError::LockedWithHandle(1, 2)));
    match c.cycle() {
        Err(ExecutionError::RegisterError(m)) => assert_eq!(m, text("write-back")),
        other => panic!("{:?}", other),
    }
    // an instruction that waits reaches the decode stage
    let mut c = Core::new(false);
    c.IF.set_pc(BASE);
    c.ID.latch_in_WB_contents = EX_OUT::AwaitingLock(None, None);
    match c.cycle() {
        Err(ExecutionError::RegisterError(m)) => assert_eq!(m, text("decode")),
        other => panic!("{:?}", other),
    }
    // an instruction comes to the execute stage without its operands
    let mut c = Core::new(false);
    c.IF.set_pc(BASE);
    c.EX.control_in_EXOP = (InstructionType::R, 0x20, 0);
    match c.cycle() {
        Err(ExecutionError::RegisterError(m)) => assert_eq!(m, text("execute")),
        other => panic!("{:?}", other),
    }
    // a result comes back for a register that no instruction owns
    let mut c = Core::new(false);
    c.IF.set_pc(BASE);
    c.ID.latch_in_WB_contents = EX_OUT::Value(5);
    c.ID.latch_in_RDest = Some(SuccessfulOwn { register_number: 9 });
    match c.cycle() {
        Err(ExecutionError::RegisterError(m)) => assert_eq!(
            m,
            "The instruction tried to write to register 9, which no instruction owns"
        ),
        other => panic!("{:?}", other),
    }
    // a size that is none of a byte, a halfword and a word
    let mut c = Core::new(false);
    c.IF.set_pc(BASE);
    c.MEM.latch_in_EX_OUT = EX_OUT::LoadFrom(0x1000, 3);
    match c.cycle() {
        Err(ExecutionError::MemError(m)) => assert_eq!(m, "Size is not supported: Size=3"),
        other => panic!("{:?}", other),
    }
}

#[test]
fn waiting_costs_cycles_that_count_as_no_instruction() {
    let (_, res, independent) =
        pipelined(&[i(0x08, 0, 8, 5), i(0x08, 0, 9, 5), i(0x08, 0, 10, 5)], 1000);
    assert!(res.unwrap());
    let (_, res, dependent) =
        pipelined(&[i(0x08, 0, 8, 5), i(0x08, 8, 9, 5), i(0x08, 9, 10, 5)], 1000);
    assert!(res.unwrap());
    assert!(dependent.cycle_count > independent.cycle_count);
    assert_eq!(dependent.instruction_count, independent.instruction_count);
}

#[test]
fn a_comparison_needs_no_destination() {
    let stage = Execution::new(0, false);
    assert!(stage.latch_in_RDest.is_none());
    let one = Ok(Available { value: 1 });
    let two = Ok(Available { value: 2 });
    assert_eq!(stage.handoff_R(0x2A, one, two, 0, 0).unwrap(), EX_OUT::Value(1));
    assert_eq!(stage.handoff_R(0x2A, two, one, 0, 0).unwrap(), EX_OUT::Value(0));
    assert_eq!(stage.handoff_R(0x20, two, one, 0, 0).unwrap(), EX_OUT::Value(3));
    assert_eq!(stage.handoff_R(0x08, two, one, 0, 0x40).unwrap(), EX_OUT::DoJump(2));
    let busy = Err(RegisterError::LockedWithHandle(7, 3));
    assert_eq!(
        stage.handoff_R(0x2A, busy, two, 0, 0).unwrap(),
        EX_OUT::AwaitingLock(Some((7, 3)), None)
    );
    assert_eq!(
        stage.handoff_R(0x2A, one, busy, 0, 0).unwrap(),
        EX_OUT::AwaitingLock(None, Some((7, 3)))
    );
}

#[test]
fn a_comparison_goes_through_the_stage_without_a_destination() {
    let mut stage = Execution::new(0, false);
    stage.control_in_EXOP = (InstructionType::R, 0x2A, BASE);
    stage.latch_in_A = Some(Ok(Available { value: 1 }));
    stage.latch_in_B = Some(Ok(Available { value: 2 }));
    stage.latch_in_I = Some(0);
    assert!(stage.is_ready());
    assert!(mips_emulator::pipeline::pipelined::Pipelined::tick(&mut stage).is_ok());
    assert_eq!(stage.latch_out_EX_OUT, EX_OUT::Value(1));
    // a move out of HI waits for its destination
    stage.control_in_EXOP = (InstructionType::R, 0x10, BASE);
    assert!(!stage.is_ready());
    stage.latch_in_RDest = Some(Ok(SuccessfulOwn { register_number: 9 }));
    assert!(stage.is_ready());
    assert!(mips_emulator::pipeline::pipelined::Pipelined::tick(&mut stage).is_ok());
    assert_eq!(stage.latch_out_EX_OUT, EX_OUT::Move(HI_IDENT, 9));
}

#[test]
fn a_taken_branch_lands_past_the_branch_plus_the_displacement() {
    let stage = Execution::new(0, false);
    let one = Ok(Available { value: 1 });
    let two = Ok(Available { value: 2 });
    // BNE at 0x1000 with the immediate 0xffba: 0x1004 - (0x46 << 2)
    assert_eq!(stage.handoff_I(0x05, one, two, 0xffba, 0x1000).unwrap(), EX_OUT::DoJump(0x0EEC));
    assert_eq!(stage.handoff_I(0x04, one, one, 0xffba, 0x1000).unwrap(), EX_OUT::DoJump(0x0EEC));
    assert_eq!(stage.handoff_I(0x04, one, one, 3, 0x1000).unwrap(), EX_OUT::DoJump(0x1010));
    assert_eq!(stage.handoff_I(0x07, one, two, 3, 0x1000).unwrap(), EX_OUT::DoJump(0x1010));
    assert_eq!(stage.handoff_I(0x04, one, two, 3, 0x1000).unwrap(), EX_OUT::NoOutput);
    // the single-cycle core goes on at the same address
    let mut c = interpreter::Core::new(false);
    c.mem.set_privileged(true);
    c.set_flag(true, MODE_FLAG);
    c.mem.store(0x1000, 4, &i(0x05, 8, 0, 0xffba).to_be_bytes()).unwrap();
    c.reg[8] = 1;
    c.PC = 0x1000;
    c.step().unwrap();
    assert_eq!(c.PC, 0x0EEC);
}

/// A device that answers every read with the bytes of one word, or refuses.
struct Words {
    word: Option<u32>,
}

impl MemoryMapped for Words {
    fn read(&mut self, _dir: u32, size: usize) -> Result<Vec<u8>, MemError> {
        match self.word {
            Some(w) => {
                let mut bytes = w.to_be_bytes().to_vec();
                bytes.resize(size, 0);
                Ok(bytes)
            }
            None => Err(MemError::MappedDeviceError(String::from("nothing to read"))),
        }
    }

    fn write(&mut self, _dir: usize, _size: usize, _contents: &[u8]) -> Result<(), MemError> {
        Ok(())
    }
}

#[test]
fn the_fetch_stage_hands_on_what_a_device_answers() {
    let word = i(0x08, 0, 8, 5);
    let mut c = Core::new(false);
    c.held_mem.map_device(0x2000, 0x2fff, Box::new(Words { word: Some(word) }));
    c.IF.set_pc(0x2000);
    c.cycle().unwrap();
    assert_eq!(c.IF.latch_out_IR, (word, 0x2000));
    assert_eq!(c.ID.latch_in_IR, (word, 0x2000));
    assert_eq!(c.IF.pc, 0x2004);
    for _ in 0..8 {
        c.cycle().unwrap();
    }
    assert_eq!(c.ID.regs.value_of(8), 5);
}

#[test]
fn a_fetch_that_a_device_refuses_ends_the_cycle() {
    let mut c = Core::new(false);
    c.held_mem.map_device(0x2000, 0x2fff, Box::new(Words { word: None }));
    c.IF.set_pc(0x2000);
    match c.cycle() {
        Err(ExecutionError::MemError(m)) => assert_eq!(m, "Propagated MemError: nothing to read"),
        other => panic!("{:?}", other),
    }
    assert_eq!(c.IF.pc, 0x2000);
    assert_eq!(c.IF.latch_out_IR, (0, 0));
    assert_eq!(c.ID.regs.value_of(8), 0);
}
