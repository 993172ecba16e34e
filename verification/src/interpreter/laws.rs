use super::semantics::CoreView;
use crate::access::loaded;
use crate::alu::{is_load, opcode_field, rt_field};
use crate::definitions::arch::{
    with_flag, FIN_FLAG, IENABLE_FLAG, INTERR_FLAG, MODE_FLAG, S_FLAG, Z_FLAG,
};
use vstd::prelude::*;

verus! {

/// Whether interrupts are disabled if the core is in privileged mode.
pub open spec fn shielded(s: CoreView) -> bool {
    s.flag(MODE_FLAG) ==> !s.flag(IENABLE_FLAG)
}

/// Setting or clearing one flag leaves the mode and the enabling of
/// interrupts alone, unless it is one of the two.
proof fn lemma_flag_bits()
    by (bit_vector)
    ensures
        forall|f: u32| #![trigger f | Z_FLAG] (f | Z_FLAG) & 24 == f & 24,
        forall|f: u32| #![trigger f & !Z_FLAG] (f & !Z_FLAG) & 24 == f & 24,
        forall|f: u32| #![trigger f | S_FLAG] (f | S_FLAG) & 24 == f & 24,
        forall|f: u32| #![trigger f & !S_FLAG] (f & !S_FLAG) & 24 == f & 24,
        forall|f: u32| #![trigger f | INTERR_FLAG] (f | INTERR_FLAG) & 24 == f & 24,
        forall|f: u32| #![trigger f & !INTERR_FLAG] (f & !INTERR_FLAG) & 24 == f & 24,
        forall|f: u32| #![trigger f | FIN_FLAG] (f | FIN_FLAG) & 24 == f & 24,
        forall|f: u32|
            #![trigger f | MODE_FLAG]
            (f | MODE_FLAG) & MODE_FLAG != 0 && ((f | MODE_FLAG) & IENABLE_FLAG) == f
                & IENABLE_FLAG,
        forall|f: u32|
            #![trigger f & !MODE_FLAG]
            (f & !MODE_FLAG) & MODE_FLAG == 0 && ((f & !MODE_FLAG) & IENABLE_FLAG) == f
                & IENABLE_FLAG,
        forall|f: u32|
            #![trigger f | IENABLE_FLAG]
            (f | IENABLE_FLAG) & IENABLE_FLAG != 0 && ((f | IENABLE_FLAG) & MODE_FLAG) == f
                & MODE_FLAG,
        forall|f: u32|
            #![trigger f & !IENABLE_FLAG]
            (f & !IENABLE_FLAG) & IENABLE_FLAG == 0 && ((f & !IENABLE_FLAG) & MODE_FLAG) == f
                & MODE_FLAG,
        forall|f: u32|
            #![trigger f & 24]
            ((f & 24) & MODE_FLAG == f & MODE_FLAG) && ((f & 24) & IENABLE_FLAG == f
                & IENABLE_FLAG),
{
}

/// The mode and the enabling of interrupts of `a` are those of `b`.
spec fn same_mode(a: CoreView, b: CoreView) -> bool {
    a.flag(MODE_FLAG) == b.flag(MODE_FLAG) && a.flag(IENABLE_FLAG) == b.flag(IENABLE_FLAG)
}

/// The trap handler is entered with interrupts disabled.
pub proof fn lemma_entered_is_shielded(s: CoreView)
    ensures
        s.entered().flag(MODE_FLAG),
        !s.entered().flag(IENABLE_FLAG),
        shielded(s.entered()),
{
    lemma_flag_bits();
}

/// An R-type instruction changes neither the mode nor the enabling of interrupts.
proof fn lemma_after_r(s: CoreView, code: u32)
    ensures
        same_mode(s.after_r(code).state, s),
        s.after_r(code).state.int_enable_armed == s.int_enable_armed,
{
    lemma_flag_bits();
    let f = s.flags;
    assert(forall|z: bool, n: bool|
        #![trigger with_flag(with_flag(f, z, Z_FLAG), n, S_FLAG)]
        with_flag(with_flag(f, z, Z_FLAG), n, S_FLAG) & 24 == f & 24);
}

/// No instruction sets the enabling of interrupts, and none but a syscall
/// sets the mode.
proof fn lemma_executed(s: CoreView, code: u32)
    requires
        shielded(s),
        s.executed(code) is Some,
    ensures
        shielded(s.executed(code)->0.state),
        s.executed(code)->0.state.int_enable_armed == s.int_enable_armed,
{
    lemma_flag_bits();
    lemma_after_r(s, code);
}

/// While the core steps, interrupts stay disabled in privileged mode: a
/// step that starts with interrupts disabled in privileged mode ends so,
/// unless it is the step in which the enabling that follows a return from
/// the handler is due and the instruction executed leaves the core in
/// privileged mode.
pub proof fn lemma_step_keeps_shield(s: CoreView)
    requires
        shielded(s),
        s.stepped() matches Some(o) && o.error is None,
        !(s.int_enable_armed && s.fetched_and_executed(s.pc)->0.state.flag(MODE_FLAG)),
    ensures
        shielded(s.stepped()->0.state),
{
    reveal(CoreView::stepped);
    lemma_flag_bits();
    let e = s.fetched_and_executed(s.pc)->0;
    match crate::access::loaded(s.mem, s.pc, 4) {
        Some((mem, Ok(code))) => {
            lemma_executed(CoreView { mem, ..s }, code);
        },
        _ => {},
    }
    lemma_retired(e.state);
}

/// A whole step on the word `code` that succeeds keeps interrupts disabled
/// in privileged mode while no enabling is due, whether a device decides
/// the instruction or none does.
proof fn lemma_finishing_keeps_shield(s: CoreView, code: u32, after: CoreView)
    requires
        shielded(s),
        !s.int_enable_armed,
        s.finishes_to(code, after, Ok(())),
    ensures
        shielded(after),
{
    lemma_flag_bits();
    match s.executed(code) {
        Some(o) => {
            lemma_executed(s, code);
            lemma_retired(o.state);
        },
        None => {
            if is_load(opcode_field(code)) {
                let v = choose|v: u32|
                    after == #[trigger] s.write_reg(rt_field(code) as int, v).retired();
                lemma_retired(s.write_reg(rt_field(code) as int, v));
            } else {
                lemma_retired(s);
            }
        },
    }
}

/// While the core steps, interrupts stay disabled in privileged mode
/// whatever the devices answer: a step that succeeds, and that starts with
/// interrupts disabled in privileged mode and with no enabling due, ends
/// with interrupts disabled in privileged mode.
pub proof fn lemma_any_step_keeps_shield(s: CoreView, after: CoreView)
    requires
        shielded(s),
        !s.int_enable_armed,
        s.steps_to(after, None),
    ensures
        shielded(after),
{
    reveal(CoreView::steps_to);
    reveal(CoreView::stepped);
    match loaded(s.mem, s.pc, 4) {
        Some((mem, Ok(code))) => {
            let fetched = CoreView { mem, ..s };
            assert(fetched.finishes_to(code, after, Ok(())));
            lemma_finishing_keeps_shield(fetched, code, after);
        },
        Some((_, Err(_))) => {},
        None => {
            let code = choose|code: u32| #[trigger] s.finishes_to(code, after, Ok(()));
            lemma_finishing_keeps_shield(s, code, after);
        },
    }
}

/// The routine that ends an instruction keeps interrupts disabled in
/// privileged mode, unless the enabling is due in privileged mode.
proof fn lemma_retired(s: CoreView)
    requires
        shielded(s),
        !(s.int_enable_armed && s.flag(MODE_FLAG)),
    ensures
        shielded(s.retired()),
{
    lemma_flag_bits();
}

} // verus!
