use crate::access::{loaded, load_sized, store_sized};
use crate::alu::{
    branch_displacement, classify, compute_i_value, compute_r_pair, compute_r_value,
    decide_branch, func_of, imm_of, opcode_of, rd_of, rs_of, rt_of, sham_of, size_of_access,
    target_of,
};
use crate::definitions::arch::op;
use crate::definitions::arch::op::InstructionType;
use crate::definitions::arch::reg_names;
use crate::definitions::arch::{
    with_flag, DEFAULT_IRQH, FIN_FLAG, IENABLE_FLAG, INTERR_FLAG, MODE_FLAG, STACKSIZE, S_FLAG,
    Z_FLAG,
};
use crate::definitions::errors::{ExecutionError, HeaderError};
use crate::definitions::stats::Stats;
use crate::devices::console;
use crate::devices::keyboard;
use crate::devices::MemoryMapped;
use crate::loader::{too_large, verdict};
use crate::memory::{Memory, MemoryView};
use vstd::prelude::*;
use vstd::string::StringExecFns;

pub mod laws;
pub mod semantics;

use semantics::{agrees, is_run, later, lemma_run_goes_on, lemma_run_starts, CoreView};

verus! {

/// The single-cycle core: it fetches, executes and retires one instruction
/// at a time.
pub struct Core {
    /// The 32 general registers.
    pub reg: [u32; 32],
    pub HI: u32,
    pub LO: u32,
    pub mem: Memory,
    /// The flags: Z, S, INTERR, IENABLE, MODE and FIN.
    pub flags: u32,
    pub PC: u32,
    /// The address of the trap handler.
    pub irq_handler_addr: u32,
    /// The program counter that was saved when the handler was entered.
    pub EPC: u32,
    /// Set by a return from the handler: interrupts are to be enabled again
    /// after the next instruction.
    pub IntEnableOnNext: bool,
    /// Set one instruction after a return from the handler: the
    /// instruction that retires now enables interrupts.
    pub int_enable_armed: bool,
    /// The interrupt pulses that have come in and were not yet taken.
    pub pending_interrupts: u64,
    /// Whether the sources of interrupts are still asked to fire. A halt
    /// clears it.
    pub interrupt_ch_open: bool,
    pub verbose: bool,
}

impl View for Core {
    type V = CoreView;

    open spec fn view(&self) -> CoreView {
        CoreView {
            reg: self.reg@,
            hi: self.HI,
            lo: self.LO,
            flags: self.flags,
            pc: self.PC,
            epc: self.EPC,
            irq_handler_addr: self.irq_handler_addr,
            int_enable_on_next: self.IntEnableOnNext,
            int_enable_armed: self.int_enable_armed,
            pending_interrupts: self.pending_interrupts,
            interrupts_open: self.interrupt_ch_open,
            mem: self.mem@,
            verbose: self.verbose,
        }
    }
}

/// The address of the default handler.
pub const DEFAULT_IRQH_ADDR: u32 = 0;

/// The base of the stack: eight bytes after the default handler.
pub const STACK_BASE: u32 = 180;

/// The state in which a core starts.
pub open spec fn initial(verbose: bool) -> CoreView {
    CoreView {
        reg: Seq::new(32, |i: int| 0u32).update(reg_names::SP as int, STACK_BASE),
        hi: 0,
        lo: 0,
        flags: IENABLE_FLAG,
        pc: 0,
        epc: 0,
        irq_handler_addr: DEFAULT_IRQH_ADDR,
        int_enable_on_next: false,
        int_enable_armed: false,
        pending_interrupts: 0,
        interrupts_open: true,
        mem: MemoryView {
            bytes: DEFAULT_IRQH@,
            privileged: false,
            protected: seq![(0u32, 176u32), (180u32, 692u32)],
            devices: seq![(0x80000000u32, 0x80000007u32), (0x80000008u32, 0x8000000fu32)],
            verbose,
        },
        verbose,
    }
}

impl Core {
    /// Makes a core with the console and the keyboard of the default layout.
    pub fn new(v: bool) -> (core: Core)
        ensures
            core@ == initial(v),
    {
        Core::with_devices(v, Box::new(console::new()), Box::new(keyboard::new()))
    }

    /// Makes a core: the default handler stands at address 0 and is
    /// protected, the stack follows it and is protected, SP holds the base
    /// of the stack, `console` and `keyboard` are mapped at their default
    /// addresses, and interrupts are enabled.
    pub fn with_devices(
        v: bool,
        console: Box<dyn MemoryMapped>,
        keyboard: Box<dyn MemoryMapped>,
    ) -> (core: Core)
        ensures
            core@ == initial(v),
    {
        let mut mem = Memory::new(v);
        let mut reg: [u32; 32] = [0u32; 32];
        mem.set_privileged(true);
        let handler = DEFAULT_IRQH;
        let stored = mem.store(DEFAULT_IRQH_ADDR as usize, 172, handler.as_slice());
        assert(mem@.bytes =~= DEFAULT_IRQH@);
        mem.protect(DEFAULT_IRQH_ADDR, STACK_BASE - 4);
        mem.protect(STACK_BASE, STACK_BASE + STACKSIZE);
        reg[reg_names::SP] = STACK_BASE;
        mem.set_privileged(false);
        mem.map_device(0x80000000, 0x80000007, console);
        mem.map_device(0x80000008, 0x8000000f, keyboard);
        let core = Core {
            reg,
            HI: 0,
            LO: 0,
            mem,
            flags: IENABLE_FLAG,
            PC: 0,
            irq_handler_addr: DEFAULT_IRQH_ADDR,
            EPC: 0,
            IntEnableOnNext: false,
            int_enable_armed: false,
            pending_interrupts: 0,
            interrupt_ch_open: true,
            verbose: v,
        };
        assert(core@.reg =~= initial(v).reg);
        assert(core@.mem.protected =~= initial(v).mem.protected);
        assert(core@.mem.devices =~= initial(v).mem.devices);
        core
    }

    /// Loads an executable image into memory and sets the program counter
    /// to its entry. An image that is refused changes nothing.
    pub fn load_RELF(&mut self, image: &[u8]) -> (res: Result<(), HeaderError>)
        ensures
            res matches Ok(_) ==> final(self)@ == (CoreView {
                pc: final(self)@.pc,
                mem: final(self)@.mem,
                ..old(self)@
            }),
            res is Err ==> final(self)@ == old(self)@,
            match verdict(image@) {
                Err(e) => res matches Err(x) && x@ == e,
                Ok(plan) => if old(self)@.mem.bytes.len() + plan.extent() > usize::MAX || old(
                    self,
                )@.mem.bytes.len() + 4 > usize::MAX {
                    res matches Err(x) && x@ == too_large()
                } else {
                    &&& res is Ok
                    &&& final(self)@.pc == plan.entry
                    &&& final(self)@.mem == old(self)@.mem.extended(plan.extent()).written(
                        plan.text_paddr as int,
                        plan.text(image@),
                    ).written(plan.data_paddr as int, plan.data(image@))
                },
            },
    {
        match self.mem.load_RELF(image) {
            Ok(pc) => {
                self.PC = pc;
                Ok(())
            },
            Err(e) => Err(e),
        }
    }

    /// Loads a raw image into memory from address 0 on, in place of what
    /// was there, and sets the program counter to `entry`.
    pub fn load_bin(&mut self, image: &[u8], entry: u32)
        ensures
            final(self)@ == (CoreView {
                pc: entry,
                mem: MemoryView { bytes: image@, ..old(self)@.mem },
                ..old(self)@
            }),
    {
        self.PC = entry;
        self.mem.load_bin(image);
    }

    /// Enters the trap handler: privileged mode is set in the core and in
    /// memory, interrupts are disabled, the program counter is saved, and
    /// the program counter is set four bytes before the handler, or to 0
    /// for a handler below address 4.
    pub fn interrupt(&mut self)
        ensures
            final(self)@ == old(self)@.entered(),
            final(self)@.flag(MODE_FLAG),
            !final(self)@.flag(IENABLE_FLAG),
    {
        self.set_flag(true, MODE_FLAG);
        self.mem.set_privileged(true);
        self.set_flag(false, IENABLE_FLAG);
        self.EPC = self.PC;
        self.PC = self.irq_handler_addr.saturating_sub(4);
        proof {
            let f = old(self).flags;
            assert(((f | 16u32) & !8u32) & 16u32 != 0 && ((f | 16u32) & !8u32) & 8u32 == 0)
                by (bit_vector);
        }
    }

    /// Sets or clears a flag.
    pub fn set_flag(&mut self, set: bool, flag: u32)
        ensures
            *final(self) == (Core { flags: with_flag(old(self).flags, set, flag), ..*old(self) }),
    {
        if set {
            self.flags |= flag;
        } else {
            self.flags &= !flag;
        }
    }

    /// Adds the interval `[proct_low, proct_high)` to the protected ones.
    pub fn protect_mem(&mut self, proct_low: u32, proct_high: u32)
        ensures
            final(self)@ == (CoreView {
                mem: MemoryView {
                    protected: old(self)@.mem.protected.push((proct_low, proct_high)),
                    ..old(self)@.mem
                },
                ..old(self)@
            }),
    {
        self.mem.protect(proct_low, proct_high);
    }

    /// Sets the address of the trap handler.
    pub fn set_IrqHPC(&mut self, irq_pc: u32)
        ensures
            *final(self) == (Core { irq_handler_addr: irq_pc, ..*old(self) }),
    {
        self.irq_handler_addr = irq_pc
    }

    /// Takes in one interrupt pulse. It is served once interrupts are
    /// enabled outside privileged mode.
    pub fn raise_interrupt(&mut self)
        ensures
            *final(self) == (Core {
                pending_interrupts: if old(self).pending_interrupts < u64::MAX {
                    (old(self).pending_interrupts + 1) as u64
                } else {
                    u64::MAX
                },
                ..*old(self)
            }),
    {
        if self.pending_interrupts < u64::MAX {
            self.pending_interrupts += 1;
        }
    }

    /// Whether the core has halted.
    pub fn finished(&self) -> (f: bool)
        ensures
            f == self@.flag(FIN_FLAG),
    {
        (self.flags & FIN_FLAG) != 0
    }

    /// Executes one instruction: fetches the word at the program counter,
    /// executes it, and goes through the routine that ends every
    /// instruction. An instruction that fails leaves the program counter on it.
    pub fn step(&mut self) -> (res: Result<(), ExecutionError>)
        ensures
            old(self)@.steps_to(
                final(self)@,
                match res {
                    Ok(_) => None,
                    Err(e) => Some(e),
                },
            ),
            match old(self)@.stepped() {
                Some(o) => agrees(res, final(self)@, o),
                None => true,
            },
            res is Ok ==> final(self)@.reg[0] == 0,
    {
        reveal(CoreView::steps_to);
        reveal(CoreView::stepped);
        let handed = self.run_handoff(self.PC);
        let ghost executed = self@;
        let ghost from_device = loaded(old(self)@.mem, old(self)@.pc, 4) is None;
        let ghost word = choose|code: u32| old(self)@.executes_to(code, executed, handed);
        match handed {
            Ok(_) => {},
            Err(e) => {
                proof {
                    if from_device && old(self)@.executes_to(word, executed, handed) {
                        assert(old(self)@.finishes_to(word, self@, Err(e)));
                    }
                }
                return Err(e);
            },
        }
        self.retire();
        proof {
            if from_device {
                assert(old(self)@.executes_to(word, executed, handed));
                assert(old(self)@.finishes_to(word, self@, Ok(())));
            }
        }
        Ok(())
    }

    /// Runs until the core halts, an instruction fails, or `fuel`
    /// instructions have been retired, and counts in `stat` what was
    /// retired. Returns whether the core has halted.
    ///
    /// The state that the run ends in is one that the steps counted may
    /// lead to, and for an instruction that fails, one that the failing
    /// step may lead to from there. Where no device decides any step, it is
    /// the state that `ran` gives.
    pub fn run(&mut self, stat: &mut Stats, fuel: u64) -> (res: Result<bool, ExecutionError>)
        requires
            old(stat).cycle_count + fuel <= usize::MAX,
            old(stat).instruction_count + fuel <= isize::MAX,
        ensures
            final(stat).instruction_count - old(stat).instruction_count == final(stat).cycle_count
                - old(stat).cycle_count,
            0 <= final(stat).cycle_count - old(stat).cycle_count <= fuel,
            ({
                let steps = (final(stat).cycle_count - old(stat).cycle_count) as nat;
                match res {
                    Ok(finished) => {
                        &&& old(self)@.runs_to(final(self)@, steps)
                        &&& finished ==> steps > 0 && final(self)@.flag(FIN_FLAG)
                        &&& !finished ==> steps == fuel && (steps > 0 ==> !final(self)@.flag(
                            FIN_FLAG,
                        ))
                    },
                    Err(e) => exists|last: CoreView|
                        {
                            &&& #[trigger] old(self)@.runs_to(last, steps)
                            &&& steps > 0 ==> !last.flag(FIN_FLAG)
                            &&& last.steps_to(final(self)@, Some(e))
                        },
                }
            }),
            match old(self)@.ran(fuel as nat) {
                Some(r) => {
                    &&& final(self)@ == r.state
                    &&& final(stat).cycle_count == old(stat).cycle_count + r.steps
                    &&& final(stat).instruction_count == old(stat).instruction_count + r.steps
                    &&& match r.error {
                        Some(e) => res matches Err(x) && x@ == e,
                        None => res == Ok::<bool, ExecutionError>(r.finished),
                    }
                },
                None => true,
            },
            res == Ok::<bool, ExecutionError>(true) ==> {
                &&& final(self)@.flag(FIN_FLAG)
                &&& final(self)@.reg[0] == 0
            },
            final(stat).start_time == old(stat).start_time,
    {
        let mut i: u64 = 0;
        let ghost mut trace: Seq<CoreView> = seq![self@];
        proof {
            lemma_run_starts(self@);
        }
        while i < fuel
            invariant
                i <= fuel,
                old(stat).cycle_count + fuel <= usize::MAX,
                old(stat).instruction_count + fuel <= isize::MAX,
                stat.cycle_count == old(stat).cycle_count + i,
                stat.instruction_count == old(stat).instruction_count + i,
                stat.start_time == old(stat).start_time,
                old(self)@.ran(fuel as nat) is Some ==> old(self)@.ran(fuel as nat) == later(
                    self@.ran((fuel - i) as nat),
                    i as nat,
                ),
                is_run(trace),
                trace.len() == i + 1,
                trace[0] == old(self)@,
                trace.last() == self@,
                i > 0 ==> !self@.flag(FIN_FLAG),
            decreases fuel - i,
        {
            let ghost before = self@;
            let stepped = self.step();
            match stepped {
                Ok(_) => {},
                Err(e) => {
                    assert(old(self)@.runs_to(
                        before,
                        (stat.cycle_count - old(stat).cycle_count) as nat,
                    ));
                    assert(before.steps_to(self@, Some(e)));
                    return Err(e);
                },
            }
            proof {
                lemma_run_goes_on(trace, self@);
                trace = trace.push(self@);
            }
            stat.cycle_incr();
            stat.instr_incr();
            if self.finished() {
                stat.mark_finished();
                return Ok(true);
            }
            i += 1;
        }
        Ok(false)
    }

    /// Fetches the word at the address `PC` and executes it.
    fn run_handoff(&mut self, PC: u32) -> (res: Result<(), ExecutionError>)
        ensures
            match old(self)@.fetched_and_executed(PC) {
                Some(o) => agrees(res, final(self)@, o),
                None => old(self)@.device_executed(PC, final(self)@, res),
            },
    {
        let code: u32 = match load_sized(&mut self.mem, PC, 4) {
            Ok(code) => code,
            Err(e) => {
                return Err(e);
            },
        };
        let res = match classify(code) {
            InstructionType::R => self.handoff_R(code),
            InstructionType::J => self.handoff_J(code),
            _ => self.handoff_I(code),
        };
        proof {
            if loaded(old(self)@.mem, PC, 4) is None {
                assert(old(self)@.executes_to(code, self@, res));
            }
        }
        res
    }

    /// Goes through the routine that ends every instruction.
    fn retire(&mut self)
        ensures
            final(self)@ == old(self)@.retired(),
            final(self)@.reg[0] == 0,
    {
        self.PC = self.PC.wrapping_add(4);
        self.reg[reg_names::ZERO] = 0;
        if (self.flags & FIN_FLAG) != 0 {
            return ;
        }
        if self.int_enable_armed {
            self.int_enable_armed = false;
            self.set_flag(true, IENABLE_FLAG);
        }
        if (self.flags & IENABLE_FLAG) != 0 && (self.flags & MODE_FLAG) == 0 {
            if self.pending_interrupts > 0 {
                self.pending_interrupts -= 1;
                self.set_flag(true, INTERR_FLAG);
            }
            if (self.flags & INTERR_FLAG) != 0 {
                self.PC = self.PC.wrapping_sub(4);
                self.interrupt();
            }
        }
        if self.IntEnableOnNext {
            self.IntEnableOnNext = false;
            self.int_enable_armed = true;
        }
    }

    /// Executes the R-type instruction `code`.
    fn handoff_R(&mut self, code: u32) -> (res: Result<(), ExecutionError>)
        ensures
            agrees(res, final(self)@, old(self)@.after_r(code)),
    {
        if code == op::NOP {
            return Ok(());
        }
        let rs: u32 = self.reg[rs_of(code) as usize];
        let rt: u32 = self.reg[rt_of(code) as usize];
        let rd: usize = rd_of(code) as usize;
        let sham: u32 = sham_of(code);
        let func: u32 = func_of(code);
        let mut res: u32 = 1;
        match compute_r_value(func, rs, rt, sham) {
            Some(v) => {
                self.reg[rd] = v;
                res = v;
            },
            None => {
                if (func == op::r::DIV || func == op::r::DIVU) && rt == 0 {
                    return Err(
                        ExecutionError::DivisionByZero(
                            String::from_str(
                                if func == op::r::DIV {
                                    "DIV"
                                } else {
                                    "DIVU"
                                },
                            ),
                        ),
                    );
                }
                match compute_r_pair(func, rs, rt) {
                    Some((hi, lo)) => {
                        self.HI = hi;
                        self.LO = lo;
                    },
                    None => {
                        if func == op::r::JALR {
                            self.reg[reg_names::RA] = self.PC.wrapping_add(4);
                            self.jump(rs);
                        } else if func == op::r::JR {
                            self.jump(rs);
                        } else if func == op::r::MFHI {
                            self.reg[rd] = self.HI;
                        } else if func == op::r::MFLO {
                            self.reg[rd] = self.LO;
                        } else if func == op::r::MTHI {
                            self.HI = rs;
                        } else if func == op::r::MTLO {
                            self.LO = rs;
                        } else {
                            return Err(ExecutionError::unrecognized("R", func, 0));
                        }
                    },
                }
            },
        }
        self.set_flag(res == 0, Z_FLAG);
        self.set_flag(res >= 0x8000_0000, S_FLAG);
        Ok(())
    }

    /// Sets the program counter for a jump to `target`.
    fn jump(&mut self, target: u32)
        ensures
            final(self)@ == old(self)@.jump(target),
    {
        self.PC = if target != 0 {
            target.wrapping_sub(4)
        } else {
            0
        };
    }

    /// Executes the J-type instruction `code`.
    fn handoff_J(&mut self, code: u32) -> (res: Result<(), ExecutionError>)
        ensures
            agrees(res, final(self)@, old(self)@.after_j(code)),
    {
        if code == op::SYSCALL {
            self.interrupt();
            return Ok(());
        }
        let func: u32 = opcode_of(code);
        let jump_target: u32 = target_of(code);
        if func == op::j::J {
            self.jump(jump_target);
        } else if func == op::j::JAL {
            self.reg[reg_names::RA] = self.PC.wrapping_add(4);
            self.jump(jump_target);
        } else {
            return Err(ExecutionError::unrecognized("J", func, 2));
        }
        Ok(())
    }

    /// Executes the I-type instruction `code`.
    fn handoff_I(&mut self, code: u32) -> (res: Result<(), ExecutionError>)
        ensures
            match old(self)@.after_i(code) {
                Some(o) => agrees(res, final(self)@, o),
                None => old(self)@.device_decided(code, final(self)@, res),
            },
    {
        if code == op::RFE {
            if (self.flags & MODE_FLAG) == 0 {
                return Err(ExecutionError::PrivilegeError(String::from_str("RFE")));
            }
            self.PC = self.EPC;
            self.set_flag(false, MODE_FLAG);
            self.IntEnableOnNext = true;
            self.set_flag(false, INTERR_FLAG);
            self.mem.set_privileged(false);
            return Ok(());
        }
        if code == op::HLT {
            if (self.flags & MODE_FLAG) == 0 {
                return Err(ExecutionError::PrivilegeError(String::from_str("HLT")));
            }
            self.interrupt_ch_open = false;
            self.pending_interrupts = 0;
            self.set_flag(false, MODE_FLAG);
            self.set_flag(true, FIN_FLAG);
            self.mem.set_privileged(false);
            return Ok(());
        }
        let func: u32 = opcode_of(code);
        let rs: u32 = self.reg[rs_of(code) as usize];
        let rt: usize = rt_of(code) as usize;
        let imm: u32 = imm_of(code);
        match compute_i_value(func, rs, imm) {
            Some(v) => {
                self.reg[rt] = v;
                return Ok(());
            },
            None => {},
        }
        if func == op::i::LHI || func == op::i::LLO {
            return Ok(());
        }
        if func == op::i::BEQ || func == op::i::BNE || func == op::i::BGTZ || func == op::i::BLEZ {
            if decide_branch(func, rs, self.reg[rt]) {
                self.PC = self.PC.wrapping_add(branch_displacement(imm));
            }
            return Ok(());
        }
        let size: usize = match size_of_access(func) {
            Some(size) => size,
            None => {
                return Err(ExecutionError::unrecognized("I", func, 0));
            },
        };
        let addr: u32 = rs.wrapping_add(imm);
        if func == op::i::SB || func == op::i::SH || func == op::i::SW {
            store_sized(&mut self.mem, self.reg[rt], addr, size)
        } else {
            match load_sized(&mut self.mem, addr, size) {
                Ok(v) => {
                    self.reg[rt] = v;
                    Ok(())
                },
                Err(e) => Err(e),
            }
        }
    }
}

} // verus!
