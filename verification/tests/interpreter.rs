use mips_emulator::definitions::arch::reg_names;
use mips_emulator::definitions::arch::{
    DEFAULT_IRQH, FIN_FLAG, IENABLE_FLAG, INTERR_FLAG, MODE_FLAG, S_FLAG, Z_FLAG,
};
use mips_emulator::definitions::errors::{ExecutionError, MemError};
use mips_emulator::definitions::stats;
use mips_emulator::devices::MemoryMapped;
use mips_emulator::interpreter::Core;
use std::cell::RefCell;
use std::rc::Rc;

fn r(rs: u32, rt: u32, rd: u32, sham: u32, func: u32) -> u32 {
    (rs << 21) | (rt << 16) | (rd << 11) | (sham << 6) | func
}

fn i(op: u32, rs: u32, rt: u32, imm: u32) -> u32 {
    (op << 26) | (rs << 21) | (rt << 16) | (imm & 0xffff)
}

fn j(op: u32, target: u32) -> u32 {
    (op << 26) | ((target >> 2) & 0x03ff_ffff)
}

const SYSCALL: u32 = 0x68000000;
const RFE: u32 = 0x42000001;
const HLT: u32 = 0x42000010;
const BASE: u32 = 0x1000;

/// A core with `program` at `BASE` and the program counter on it.
fn core_with(program: &[u32]) -> Core {
    let mut c = Core::new(false);
    for (n, word) in program.iter().enumerate() {
        c.mem.store(BASE as usize + 4 * n, 4, &word.to_be_bytes()).unwrap();
    }
    c.PC = BASE;
    c
}

/// The registers after `program` has been stepped through.
fn registers_after(program: &[u32], setup: &[(usize, u32)]) -> Core {
    let mut c = core_with(program);
    for (reg, value) in setup {
        c.reg[*reg] = *value;
    }
    for _ in 0..program.len() {
        c.step().unwrap();
    }
    c
}

#[test]
fn backwards_jumps() {
    let mut c: Core = Core::new(true);

    let start = 0x00000010;
    let hlt = [0x42, 0x00, 0x00, 0x10]; //hlt
    let backj = [0x08, 0x00, 0x00, 0x04]; // jmp -1

    c.mem.set_privileged(true);
    c.set_flag(true, MODE_FLAG);

    c.mem.store(start, 4, &hlt).unwrap();
    c.mem.store(start + 4, 4, &backj).unwrap();
    c.PC = start as u32;

    let mut stat = stats::new(2);
    assert!(c.run(&mut stat, 1000).unwrap());
    // the core halted on its first instruction
    assert_eq!(stat.cycle_count, 1);
    assert_eq!(stat.instruction_count, 1);
    assert_eq!(c.PC, 0x14);
    assert!(c.finished());
    assert!(!c.interrupt_ch_open);
}

#[test]
#[should_panic]
fn unprivileged_rfe() {
    let mut c: Core = Core::new(true);

    let code = [0x42, 0x00, 0x00, 0x01]; //rfe
    c.mem.store(0x00fff, 4, &code).unwrap();
    c.PC = 0x00fff;

    let mut stat = stats::new(2);
    c.run(&mut stat, 1000).unwrap();
}

#[test]
#[should_panic]
fn unprivileged_hlt() {
    let mut c: Core = Core::new(true);

    let code = [0x42, 0x00, 0x00, 0x10]; //hlt
    c.mem.store(0x00fff, 4, &code).unwrap();
    c.PC = 0x00fff;

    let mut stat = stats::new(2);
    c.run(&mut stat, 1000).unwrap();
}

#[test]
fn privileged_instructions_are_refused_by_name() {
    for (code, name) in [([0x42u8, 0x00, 0x00, 0x01], "RFE"), ([0x42, 0x00, 0x00, 0x10], "HLT")] {
        let mut c = Core::new(false);
        c.mem.store(0x00fff, 4, &code).unwrap();
        c.PC = 0x00fff;
        let mut stat = stats::new(2);
        match c.run(&mut stat, 1000) {
            Err(ExecutionError::PrivilegeError(n)) => assert_eq!(n, name),
            other => panic!("{:?}", other),
        }
        // the instruction that failed was not retired
        assert_eq!(c.PC, 0x00fff);
        assert_eq!(stat.instruction_count, 0);
    }
}

#[test]
fn default_irqH() {
    let mut c: Core = Core::new(true);

    c.mem.store(0xff0f8, 4, &[0x20, 0x02, 0x00, 0x0A]).unwrap(); //li $v0, 10
    c.mem.store(0xff0fc, 4, &[0x68, 0x00, 0x00, 0x00]).unwrap(); //syscall
    c.PC = 0xff0f8;

    let mut stat = stats::new(2);
    assert!(c.run(&mut stat, 1000).unwrap());
    assert!(c.finished());
    assert_eq!(c.flags & FIN_FLAG, FIN_FLAG);
    assert_eq!(c.reg[reg_names::V0], 10);
    assert_eq!(c.EPC, 0xff0fc);
    // li, syscall, nine instructions of the handler up to the branch, and hlt
    assert_eq!(stat.instruction_count, 12);
    assert_eq!(stat.cycle_count, 12);
}

#[test]
fn a_new_core() {
    let c = Core::new(true);
    assert!(c.verbose);
    assert_eq!(c.PC, 0);
    assert_eq!(c.flags, IENABLE_FLAG);
    for (n, value) in c.reg.iter().enumerate() {
        assert_eq!(*value, if n == reg_names::SP { 180 } else { 0 });
    }
    let mut c = c;
    // the handler and the stack are protected
    for addr in [0usize, 175, 180, 691] {
        assert!(matches!(c.mem.store(addr, 1, &[1]), Err(MemError::PermError(_, _, _))));
    }
    for addr in [176usize, 179, 692] {
        c.mem.store(addr, 1, &[1]).unwrap();
    }
    c.mem.set_privileged(true);
    assert_eq!(c.mem.load(0, 172).unwrap(), DEFAULT_IRQH.to_vec());
}

#[test]
fn fuel_bounds_a_run() {
    // a loop: j BASE
    let mut c = core_with(&[j(2, BASE)]);
    let mut stat = stats::new(2);
    assert!(!c.run(&mut stat, 25).unwrap());
    assert_eq!(stat.cycle_count, 25);
    assert_eq!(stat.instruction_count, 25);
    assert_eq!(c.PC, BASE);
    assert!(!c.run(&mut stat, 0).unwrap());
    assert_eq!(stat.cycle_count, 25);
}

#[test]
fn arithmetic_of_the_r_type() {
    let (a, b) = (8usize, 9usize);
    let cases: Vec<(u32, u32, u32, u32)> = vec![
        // func, rs, rt, expected rd
        (0x20, 5, 7, 12),                   // add
        (0x20, 5, 0xffff_fffe, 7),          // add of a negative rt subtracts it
        (0x21, 0xffff_ffff, 2, 1),          // addu wraps
        (0x22, 5, 7, 0xffff_fffe),          // sub wraps
        (0x23, 7, 5, 2),                    // subu
        (0x24, 0b1100, 0b1010, 0b1000),     // and
        (0x25, 0b1100, 0b1010, 0b1110),     // or
        (0x26, 0b1100, 0b1010, 0b0110),     // xor
        (0x27, 0b1100, 0b1010, !0b1110u32), // nor
        (0x2a, 0xffff_ffff, 1, 1),          // slt: -1 < 1
        (0x2a, 1, 0xffff_ffff, 0),          // slt: 1 < -1
        (0x2a, 0xffff_fffb, 0xffff_fffd, 1), // slt: -5 < -3
        (0x29, 0xffff_ffff, 1, 0),          // sltu
        (0x29, 1, 0xffff_ffff, 1),          // sltu
        (0x07, 4, 0x8000_0000, 0xf800_0000), // srav: rt >> rs, arithmetic
        (0x07, 36, 0x8000_0000, 0xf800_0000), // srav: by the low five bits of rs
        (0x06, 4, 0x8000_0000, 0x0800_0000), // srlv
        (0x06, 32, 0x8000_0000, 0x8000_0000), // srlv by 32 is by 0
    ];
    for (func, rs, rt, expected) in cases {
        let c = registers_after(&[r(8, 9, 10, 0, func)], &[(a, rs), (b, rt)]);
        assert_eq!(c.reg[10], expected, "func {:x} on {:x}, {:x}", func, rs, rt);
        assert_eq!(c.flags & Z_FLAG != 0, expected == 0);
        assert_eq!(c.flags & S_FLAG != 0, expected >= 0x8000_0000);
        assert_eq!(c.PC, BASE + 4);
    }
    // shifts by the shift amount
    let c = registers_after(&[r(0, 9, 10, 4, 0x00)], &[(b, 0x0f00_000f)]);
    assert_eq!(c.reg[10], 0xf000_00f0);
    let c = registers_after(&[r(0, 9, 10, 4, 0x03)], &[(b, 0xf000_00f0)]);
    assert_eq!(c.reg[10], 0xff00_000f);
    let c = registers_after(&[r(0, 9, 10, 31, 0x03)], &[(b, 0x7000_00f0)]);
    assert_eq!(c.reg[10], 0);
}

#[test]
fn multiplication_and_division() {
    let cases: Vec<(u32, u32, u32, u32, u32)> = vec![
        // func, rs, rt, HI, LO
        (0x19, 0xffff_ffff, 0xffff_ffff, 0xffff_fffe, 1), // multu
        (0x19, 3, 5, 0, 15),
        (0x18, 0xffff_ffff, 0xffff_ffff, 0, 1),           // mult: -1 * -1
        (0x18, 0xffff_fffe, 3, 0xffff_ffff, 0xffff_fffa), // mult: -2 * 3
        (0x18, 0x8000_0000, 0x8000_0000, 0x4000_0000, 0), // mult: the two smallest
        (0x18, 0x7fff_ffff, 2, 0, 0xffff_fffe),
        (0x1b, 17, 5, 2, 3),                              // divu
        (0x1b, 0xffff_ffff, 2, 1, 0x7fff_ffff),
        (0x1a, 17, 5, 2, 3),                              // div
        (0x1a, 0xffff_ffef, 5, 0xffff_fffe, 0xffff_fffd), // div: -17 / 5 = -3, rest -2
        (0x1a, 17, 0xffff_fffb, 2, 0xffff_fffd),          // div: 17 / -5 = -3, rest 2
        (0x1a, 0xffff_ffef, 0xffff_fffb, 0xffff_fffe, 3), // div: -17 / -5 = 3, rest -2
        (0x1a, 0x8000_0000, 0xffff_ffff, 0, 0x8000_0000), // div: the quotient wraps
    ];
    for (func, rs, rt, hi, lo) in cases {
        let c = registers_after(&[r(8, 9, 0, 0, func)], &[(8, rs), (9, rt)]);
        assert_eq!((c.HI, c.LO), (hi, lo), "func {:x} on {:x}, {:x}", func, rs, rt);
        // an instruction without a result clears both flags
        assert_eq!(c.flags & (Z_FLAG | S_FLAG), 0);
    }
    // moves from and to HI and LO
    let c = registers_after(
        &[r(8, 0, 0, 0, 0x11), r(9, 0, 0, 0, 0x13), r(0, 0, 10, 0, 0x10), r(0, 0, 11, 0, 0x12)],
        &[(8, 0xaa), (9, 0xbb)],
    );
    assert_eq!((c.HI, c.LO, c.reg[10], c.reg[11]), (0xaa, 0xbb, 0xaa, 0xbb));
}

#[test]
fn division_by_zero_stops_the_core() {
    for (func, name) in [(0x1a, "DIV"), (0x1b, "DIVU")] {
        let mut c = core_with(&[r(8, 9, 0, 0, func)]);
        c.reg[8] = 7;
        c.HI = 1;
        c.LO = 2;
        match c.step() {
            Err(ExecutionError::DivisionByZero(n)) => assert_eq!(n, name),
            other => panic!("{:?}", other),
        }
        assert_eq!((c.HI, c.LO, c.PC), (1, 2, BASE));
    }
}

#[test]
fn arithmetic_of_the_i_type() {
    let cases: Vec<(u32, u32, u32, u32)> = vec![
        // opcode, rs, imm, expected rt
        (0x08, 5, 7, 12),                  // addi
        (0x08, 5, 0xffff, 4),              // addi of -1
        (0x09, 5, 0x8000, 0xffff_8005),    // addiu sign-extends
        (0x09, 0xffff_ffff, 1, 0),         // and wraps
        (0x0c, 0xffff_ffff, 0xf0f0, 0xf0f0), // andi zero-extends
        (0x0d, 0xf000_0000, 0x00ff, 0xf000_00ff), // ori
        (0x0e, 0xffff_ffff, 0xffff, 0xffff_0000), // xori
        (0x0a, 5, 7, 1),                   // slti
        (0x0a, 7, 5, 0),
        (0x0b, 0xffff_ffff, 0xffff, 0),    // sltiu compares with the zero-extended immediate
        (0x0b, 0x00ff, 0xffff, 1),
    ];
    for (op, rs, imm, expected) in cases {
        let mut c = core_with(&[i(op, 8, 9, imm)]);
        c.reg[8] = rs;
        c.flags |= Z_FLAG;
        c.step().unwrap();
        assert_eq!(c.reg[9], expected, "opcode {:x} on {:x}, {:x}", op, rs, imm);
        // the I-type leaves Z and S alone
        assert_eq!(c.flags & (Z_FLAG | S_FLAG), Z_FLAG);
    }
}

#[test]
fn register_zero_stays_zero() {
    let c = registers_after(&[i(0x08, 0, 0, 55), r(8, 8, 0, 0, 0x21)], &[(8, 3)]);
    assert_eq!(c.reg[0], 0);
    assert_eq!(c.PC, BASE + 8);
}

#[test]
fn branches() {
    // opcode, rs, rt, taken
    let cases: Vec<(u32, u32, u32, bool)> = vec![
        (0x04, 5, 5, true),   // beq
        (0x04, 5, 6, false),
        (0x05, 5, 5, false),  // bne
        (0x05, 5, 6, true),
        (0x07, 1, 0, true),   // bgtz
        (0x07, 0, 0, false),
        (0x07, 0x8000_0000, 0, true), // bgtz compares unsigned
        (0x06, 5, 5, true),   // blez: rs <= rt
        (0x06, 5, 6, true),
        (0x06, 6, 5, false),
    ];
    for (op, rs, rt, taken) in cases {
        for imm in [3u32, 0xfffd, 0x7fff, 0x8000] {
            let mut c = core_with(&[i(op, 8, 9, imm)]);
            c.reg[8] = rs;
            c.reg[9] = rt;
            c.step().unwrap();
            let displacement = (((imm as u16) as i16) as i32 * 4) as u32;
            let expected = if taken {
                BASE.wrapping_add(displacement).wrapping_add(4)
            } else {
                BASE + 4
            };
            assert_eq!(c.PC, expected, "opcode {:x} on {:x}, {:x}, by {:x}", op, rs, rt, imm);
        }
    }
}

#[test]
fn branch_symmetry() {
    for (a, b) in [(1u32, 1u32), (1, 2), (0, 0xffff_ffff)] {
        for k in [1u32, 5, 0x7fff] {
            let mut beq = core_with(&[i(0x04, 8, 9, k)]);
            let mut bne = core_with(&[i(0x05, 8, 9, 0x1_0000 - k)]);
            for c in [&mut beq, &mut bne] {
                c.reg[8] = a;
                c.reg[9] = b;
                c.step().unwrap();
            }
            // exactly one of the two is taken
            assert_eq!(beq.PC != BASE + 4, bne.PC == BASE + 4);
            // and the two displacements are opposite
            let forward = BASE + 4 + 4 * k;
            let backward = BASE + 4 - 4 * k;
            assert_eq!(beq.PC, if a == b { forward } else { BASE + 4 });
            assert_eq!(bne.PC, if a != b { backward } else { BASE + 4 });
        }
    }
}

#[test]
fn jumps() {
    // j
    let mut c = core_with(&[j(2, 0x2000)]);
    c.step().unwrap();
    assert_eq!((c.PC, c.reg[reg_names::RA]), (0x2000, 0));
    // jal leaves the address after the jump in RA
    let mut c = core_with(&[j(3, 0x2000)]);
    c.step().unwrap();
    assert_eq!((c.PC, c.reg[reg_names::RA]), (0x2000, BASE + 4));
    // jr
    let mut c = core_with(&[r(8, 0, 0, 0, 0x08)]);
    c.reg[8] = 0x3002;
    c.step().unwrap();
    assert_eq!(c.PC, 0x3002);
    // jalr
    let mut c = core_with(&[r(8, 0, 0, 0, 0x09)]);
    c.reg[8] = 0x3000;
    c.step().unwrap();
    assert_eq!((c.PC, c.reg[reg_names::RA]), (0x3000, BASE + 4));
    // a jump to 0 goes on at 4
    let mut c = core_with(&[j(2, 0)]);
    c.step().unwrap();
    assert_eq!(c.PC, 4);
    // a call and its return
    let mut c = core_with(&[j(3, BASE + 12), i(0x08, 0, 9, 1), HLT, r(31, 0, 0, 0, 0x08)]);
    c.step().unwrap();
    c.step().unwrap();
    c.step().unwrap();
    assert_eq!((c.PC, c.reg[9]), (BASE + 8, 1));
}

#[test]
fn loads_and_stores() {
    let program = [
        i(0x2b, 8, 9, 0x10), // sw r9, 0x10(r8)
        i(0x23, 8, 10, 0x10), // lw r10, 0x10(r8)
        i(0x21, 8, 11, 0x10), // lh r11, 0x10(r8)
        i(0x25, 8, 12, 0x12), // lhu r12, 0x12(r8)
        i(0x20, 8, 13, 0x11), // lb r13, 0x11(r8)
        i(0x24, 8, 14, 0x13), // lbu r14, 0x13(r8)
        i(0x29, 8, 9, 0x20), // sh r9, 0x20(r8)
        i(0x28, 8, 9, 0x24), // sb r9, 0x24(r8)
        i(0x23, 8, 15, 0x20), // lw r15, 0x20(r8)
        i(0x23, 8, 16, 0x24), // lw r16, 0x24(r8)
    ];
    let mut c = registers_after(&program, &[(8, 0x2000), (9, 0xdeadbeef)]);
    assert_eq!(c.mem.load(0x2010, 4).unwrap(), vec![0xde, 0xad, 0xbe, 0xef]);
    assert_eq!(c.reg[10], 0xdeadbeef);
    assert_eq!(c.reg[11], 0xdead);
    assert_eq!(c.reg[12], 0xbeef);
    assert_eq!(c.reg[13], 0xad);
    assert_eq!(c.reg[14], 0xef);
    assert_eq!(c.reg[15], 0xbeef0000);
    assert_eq!(c.reg[16], 0xef000000);
}

#[test]
fn protected_memory_stops_the_core() {
    let mut c = core_with(&[i(0x2b, 0, 9, 0x10)]);
    c.reg[9] = 1;
    match c.step() {
        Err(ExecutionError::MemError(m)) => assert_eq!(
            m,
            "Propagated MemError: Tried to access protected region range [0x00000000..0x000000b0] at address 0x00000010"
        ),
        other => panic!("{:?}", other),
    }
    assert_eq!(c.PC, BASE);
    c.mem.set_privileged(true);
    assert_eq!(c.mem.load(0x10, 4).unwrap(), DEFAULT_IRQH[0x10..0x14].to_vec());
}

#[test]
fn unknown_instructions_stop_the_core() {
    let cases: Vec<(u32, &str)> = vec![
        (r(0, 0, 0, 0, 0x3f), "Unrecognized R type func 3f"),
        (r(0, 1, 0, 0, 0x01), "Unrecognized R type func 1"),
        (i(0x3f, 0, 0, 0), "Unrecognized I type func 3f"),
        (0x68000001, "Unrecognized J type func 1a"),
    ];
    for (code, text) in cases {
        let mut c = core_with(&[code]);
        match c.step() {
            Err(ExecutionError::UnrecognizedOPError(m)) => assert_eq!(m, text),
            other => panic!("{:?}", other),
        }
    }
    // the all-zero word does nothing, the two immediates without a meaning neither
    let c = registers_after(&[0, i(0x19, 1, 2, 3), i(0x18, 1, 2, 3)], &[]);
    assert_eq!(c.PC, BASE + 12);
    assert_eq!(c.flags, IENABLE_FLAG);
}

#[test]
fn syscall_and_return() {
    let mut c = core_with(&[SYSCALL, i(0x08, 0, 9, 1), i(0x08, 0, 10, 2)]);
    // a handler that returns at once
    c.mem.set_privileged(true);
    c.mem.store(0x2000, 4, &RFE.to_be_bytes()).unwrap();
    c.mem.set_privileged(false);
    c.set_IrqHPC(0x2000);
    c.step().unwrap();
    assert_eq!(c.PC, 0x2000);
    assert_eq!(c.EPC, BASE);
    assert_eq!(c.flags & (MODE_FLAG | IENABLE_FLAG), MODE_FLAG);
    assert!(c.mem.is_privileged());
    c.step().unwrap();
    // execution goes on after the syscall, with interrupts still disabled
    assert_eq!(c.PC, BASE + 4);
    assert_eq!(c.flags & (MODE_FLAG | IENABLE_FLAG | INTERR_FLAG), 0);
    assert!(!c.mem.is_privileged());
    assert!(c.int_enable_armed);
    // they are enabled again when one more instruction has retired
    c.step().unwrap();
    assert_eq!(c.flags & IENABLE_FLAG, IENABLE_FLAG);
    assert!(!c.int_enable_armed);
    c.step().unwrap();
    assert_eq!((c.reg[9], c.reg[10]), (1, 2));
}

#[test]
fn interrupts_are_taken_between_instructions() {
    let mut c = core_with(&[i(0x08, 0, 9, 1), i(0x08, 0, 10, 2), i(0x08, 0, 11, 3)]);
    c.mem.set_privileged(true);
    c.mem.store(0x2000, 4, &RFE.to_be_bytes()).unwrap();
    c.mem.set_privileged(false);
    c.set_IrqHPC(0x2000);
    c.step().unwrap();
    assert_eq!(c.PC, BASE + 4);
    c.raise_interrupt();
    c.raise_interrupt();
    assert_eq!(c.pending_interrupts, 2);
    c.step().unwrap();
    // the second instruction was retired, and the handler entered: the
    // program counter stands four bytes before it
    assert_eq!(c.reg[10], 2);
    assert_eq!(c.pending_interrupts, 1);
    assert_eq!(c.PC, 0x1ffc);
    assert_eq!(c.EPC, BASE + 4);
    assert_eq!(c.flags & (MODE_FLAG | IENABLE_FLAG | INTERR_FLAG), MODE_FLAG | INTERR_FLAG);
    c.step().unwrap();
    assert_eq!(c.PC, 0x2000);
    // the handler returns; one instruction runs before interrupts are enabled again
    c.step().unwrap();
    assert_eq!(c.PC, BASE + 8);
    assert_eq!(c.flags & (MODE_FLAG | IENABLE_FLAG | INTERR_FLAG), 0);
    assert_eq!(c.pending_interrupts, 1);
    c.step().unwrap();
    // with it they are enabled, and the second pulse is taken
    assert_eq!(c.reg[11], 3);
    assert_eq!(c.pending_interrupts, 0);
    assert_eq!(c.flags & MODE_FLAG, MODE_FLAG);
    assert_eq!(c.EPC, BASE + 8);
    assert_eq!(c.PC, 0x1ffc);
}

#[test]
fn a_syscall_right_after_a_return_runs_its_handler_with_interrupts_enabled() {
    let mut c = core_with(&[SYSCALL, SYSCALL]);
    c.mem.set_privileged(true);
    c.mem.store(0x2000, 4, &RFE.to_be_bytes()).unwrap();
    c.mem.set_privileged(false);
    c.set_IrqHPC(0x2000);
    c.step().unwrap(); // syscall
    c.step().unwrap(); // rfe
    assert!(c.int_enable_armed);
    c.step().unwrap(); // syscall, and the enabling that was due
    assert_eq!(c.flags & (MODE_FLAG | IENABLE_FLAG), MODE_FLAG | IENABLE_FLAG);
}

#[test]
fn interrupt_entry() {
    let mut c = Core::new(false);
    c.PC = 0x1234;
    c.interrupt();
    assert_eq!(c.PC, 0);
    c.PC = 0x1234;
    c.set_IrqHPC(0x40);
    c.interrupt();
    assert_eq!(c.flags & MODE_FLAG, MODE_FLAG);
    assert_eq!(c.flags & IENABLE_FLAG, 0);
    assert_eq!(c.EPC, 0x1234);
    assert_eq!(c.PC, 0x3c);
    assert!(c.mem.is_privileged());
    c.protect_mem(0x5000, 0x6000);
    c.mem.set_privileged(false);
    assert!(c.mem.store(0x5000, 1, &[1]).is_err());
    c.set_flag(true, FIN_FLAG);
    assert!(c.finished());
    c.set_flag(false, FIN_FLAG);
    assert!(!c.finished());
}

struct Recorder {
    written: Rc<RefCell<Vec<(usize, usize, Vec<u8>)>>>,
}

impl MemoryMapped for Recorder {
    fn read(&mut self, _dir: u32, size: usize) -> Result<Vec<u8>, MemError> {
        Ok(vec![0x5a; size])
    }

    fn write(&mut self, dir: usize, size: usize, contents: &[u8]) -> Result<(), MemError> {
        self.written.borrow_mut().push((dir, size, contents.to_vec()));
        Ok(())
    }
}

#[test]
fn the_default_handler_prints_through_the_console() {
    let written = Rc::new(RefCell::new(Vec::new()));
    let console = Recorder { written: written.clone() };
    let keyboard = Recorder { written: Rc::new(RefCell::new(Vec::new())) };
    let mut c = Core::with_devices(false, Box::new(console), Box::new(keyboard));
    let program = [
        i(0x08, 0, 2, 1),      // li v0, 1: print an integer
        i(0x08, 0, 4, 0x3000), // li a0, 0x3000
        SYSCALL,
        i(0x08, 0, 2, 10), // li v0, 10: exit
        SYSCALL,
    ];
    for (n, word) in program.iter().enumerate() {
        c.mem.store(BASE as usize + 4 * n, 4, &word.to_be_bytes()).unwrap();
    }
    c.mem.store(0x3000, 4, &[0, 0, 0x30, 0x39]).unwrap();
    c.PC = BASE;
    let mut stat = stats::new(2);
    assert!(c.run(&mut stat, 1000).unwrap());
    // the mode byte is set to 0, then the word at a0 is written
    assert_eq!(
        *written.borrow(),
        vec![(0x80000004usize, 1usize, vec![0u8]), (0x80000000, 4, vec![0, 0, 0x30, 0x39])]
    );
    // a load from a device gives what the device gave
    let mut c = Core::with_devices(
        false,
        Box::new(Recorder { written: Rc::new(RefCell::new(Vec::new())) }),
        Box::new(Recorder { written: Rc::new(RefCell::new(Vec::new())) }),
    );
    c.mem.store(BASE as usize, 4, &i(0x21, 8, 9, 8).to_be_bytes()).unwrap();
    c.PC = BASE;
    c.reg[8] = 0x80000000;
    c.step().unwrap();
    assert_eq!(c.reg[9], 0x5a5a);
}

#[test]
fn loading_images() {
    let mut c = Core::new(false);
    c.load_bin(&[0x20, 0x09, 0x00, 0x07], 0);
    assert_eq!(c.PC, 0);
    // the image lies where the handler was, which is still protected
    assert!(c.step().is_err());
    c.mem.set_privileged(true);
    c.step().unwrap();
    assert_eq!(c.reg[9], 7);
    assert!(c.load_RELF(&[1, 2, 3]).is_err());
    assert_eq!(c.PC, 4);
}

/// A device that answers every read with the bytes of one word, or refuses.
struct Rom {
    word: Option<u32>,
}

impl MemoryMapped for Rom {
    fn read(&mut self, _dir: u32, size: usize) -> Result<Vec<u8>, MemError> {
        match self.word {
            Some(w) => {
                let mut bytes = w.to_be_bytes().to_vec();
                bytes.resize(size, 0);
                Ok(bytes)
            }
            None => Err(MemError::MappedDeviceError(String::from("nothing to read"))),
        }
    }

    fn write(&mut self, _dir: usize, _size: usize, _contents: &[u8]) -> Result<(), MemError> {
        Ok(())
    }
}

#[test]
fn an_instruction_from_a_device_is_executed_as_any_other() {
    let mut c = Core::new(false);
    c.mem.map_device(0x2000, 0x2003, Box::new(Rom { word: Some(i(0x08, 0, 8, 5)) }));
    c.PC = 0x2000;
    let size = c.mem.size();
    c.step().unwrap();
    assert_eq!(c.reg[8], 5);
    assert_eq!(c.PC, 0x2004);
    assert_eq!(c.mem.size(), size);
    // the same word from memory leaves the same registers
    let mut plain = core_with(&[i(0x08, 0, 8, 5)]);
    plain.step().unwrap();
    assert_eq!(plain.reg, c.reg);
    assert_eq!(plain.flags, c.flags);
}

#[test]
fn a_fetch_that_a_device_refuses_changes_nothing() {
    let mut c = Core::new(false);
    c.mem.map_device(0x2000, 0x2003, Box::new(Rom { word: None }));
    c.PC = 0x2000;
    c.reg[8] = 77;
    let flags = c.flags;
    match c.step() {
        Err(ExecutionError::MemError(m)) => assert_eq!(m, "Propagated MemError: nothing to read"),
        other => panic!("{:?}", other),
    }
    assert_eq!(c.PC, 0x2000);
    assert_eq!(c.reg[8], 77);
    assert_eq!(c.flags, flags);
    let mut stat = stats::new(2);
    assert!(c.run(&mut stat, 10).is_err());
    assert_eq!(stat.cycle_count, 0);
}
