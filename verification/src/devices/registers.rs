use crate::definitions::errors::RegisterError;
use vstd::prelude::*;

verus! {

/// The number under which the scoreboard knows HI.
pub const HI_IDENT: u32 = 33;

/// The number under which the scoreboard knows LO.
pub const LO_IDENT: u32 = 34;

/// One more than the highest register number.
pub const SLOTS: usize = 35;

/// What a read of a free register gives.
#[derive(Debug, Copy, Clone, PartialEq, Eq, Structural)]
pub struct Available {
    pub value: u32,
}

/// What an instruction holds once it owns its destination.
#[derive(Debug, Copy, Clone, PartialEq, Eq, Structural)]
pub struct SuccessfulOwn {
    pub register_number: u32,
}

/// Whether `regno` names a register: one of the 32 general ones, HI or LO.
pub open spec fn is_register(regno: u32) -> bool {
    regno < 32 || regno == HI_IDENT || regno == LO_IDENT
}

/// The handles that are not `id`.
pub open spec fn other_than(id: usize) -> spec_fn(usize) -> bool {
    |w: usize| w != id
}

/// One register as the scoreboard sees it.
pub struct RegisterState {
    pub value: u32,
    pub locked: bool,
    /// The handle of the instruction that owns the register.
    pub owner: Option<usize>,
    /// The handles of the instructions that wait for it, the first to come first.
    pub waiting: Seq<usize>,
}

impl RegisterState {
    pub open spec fn free(value: u32) -> RegisterState {
        RegisterState { value, locked: false, owner: None, waiting: Seq::empty() }
    }

    /// A register is locked exactly when it has an owner, and only a locked
    /// register is waited for.
    pub open spec fn wf(self) -> bool {
        &&& self.locked <==> self.owner is Some
        &&& !self.locked ==> self.waiting.len() == 0
    }

    /// The register once its owner has let go of it: the first instruction
    /// that waits owns it next, and it is free where none waits.
    pub open spec fn released(self) -> RegisterState {
        if self.waiting.len() > 0 {
            RegisterState {
                value: self.value,
                locked: true,
                owner: Some(self.waiting[0]),
                waiting: self.waiting.drop_first(),
            }
        } else {
            RegisterState::free(self.value)
        }
    }

    /// The register once the instruction `id` has been struck from it: it no
    /// longer waits, and what it owned is let go.
    pub open spec fn without(self, id: usize) -> RegisterState {
        let rest = RegisterState { waiting: self.waiting.filter(other_than(id)), ..self };
        if self.owner == Some(id) {
            rest.released()
        } else {
            rest
        }
    }
}

/// Striking an instruction from a register leaves the register well formed,
/// and leaves a free register as it is.
pub proof fn lemma_without(s: RegisterState, id: usize)
    requires
        s.wf(),
    ensures
        s.without(id).wf(),
        !s.locked ==> s.without(id) == s,
{
    reveal(Seq::filter);
    if !s.locked {
        assert(s.waiting.filter(other_than(id)) =~= s.waiting);
    }
}

/// Whether `slots` are the registers of a scoreboard: one state for every
/// number, each well formed, and register 0 free and zero.
pub open spec fn wf(slots: Seq<RegisterState>) -> bool {
    &&& slots.len() == SLOTS
    &&& forall|i: int| 0 <= i < slots.len() ==> (#[trigger] slots[i]).wf()
    &&& slots[0] == RegisterState::free(0)
}

/// What a read of the register `regno` answers.
pub open spec fn reading(slots: Seq<RegisterState>, regno: u32) -> Result<Available, RegisterError> {
    if regno == 0 {
        Ok(Available { value: 0 })
    } else {
        match slots[regno as int].owner {
            Some(owner) => Err(RegisterError::LockedWithHandle(owner, regno)),
            None => Ok(Available { value: slots[regno as int].value }),
        }
    }
}

/// The registers after the instruction `id` has asked for `regno` as its
/// destination, and the answer.
pub open spec fn locking(slots: Seq<RegisterState>, regno: u32, id: usize) -> (
    Seq<RegisterState>,
    Result<SuccessfulOwn, RegisterError>,
) {
    let slot = slots[regno as int];
    if regno == 0 {
        (slots, Ok(SuccessfulOwn { register_number: 0 }))
    } else {
        match slot.owner {
            Some(owner) => (
                slots.update(
                    regno as int,
                    RegisterState { waiting: slot.waiting.push(id), ..slot },
                ),
                Err(RegisterError::LockedWithHandle(owner, regno)),
            ),
            None => (
                slots.update(
                    regno as int,
                    RegisterState { locked: true, owner: Some(id), ..slot },
                ),
                Ok(SuccessfulOwn { register_number: regno }),
            ),
        }
    }
}

/// The registers after the instruction `id` has written `contents` to
/// `regno`, which some instruction owns, and the answer.
pub open spec fn writing(slots: Seq<RegisterState>, regno: u32, contents: u32, id: usize) -> (
    Seq<RegisterState>,
    Result<(), RegisterError>,
) {
    let slot = slots[regno as int];
    if regno == 0 {
        (slots, Ok(()))
    } else if slot.owner == Some(id) {
        (
            slots.update(regno as int, (RegisterState { value: contents, ..slot }).released()),
            Ok(()),
        )
    } else {
        (slots, Err(RegisterError::NotOwned(slot.owner->0, regno)))
    }
}

struct Slot {
    value: u32,
    owner: Option<usize>,
    waiting: Vec<usize>,
}

impl Slot {
    spec fn state(self) -> RegisterState {
        RegisterState {
            value: self.value,
            locked: self.owner is Some,
            owner: self.owner,
            waiting: self.waiting@,
        }
    }
}

/// The handles in `waiting` that are not `id`, in their order.
fn keep_others(waiting: &Vec<usize>, id: usize) -> (kept: Vec<usize>)
    ensures
        kept@ == waiting@.filter(other_than(id)),
{
    let mut kept: Vec<usize> = Vec::new();
    let mut j: usize = 0;
    proof {
        reveal(Seq::filter);
    }
    assert(waiting@.subrange(0, 0) =~= Seq::empty());
    while j < waiting.len()
        invariant
            j <= waiting@.len(),
            kept@ == waiting@.subrange(0, j as int).filter(other_than(id)),
        decreases waiting@.len() - j,
    {
        proof {
            reveal(Seq::filter);
            assert(waiting@.subrange(0, j + 1).drop_last() =~= waiting@.subrange(0, j as int));
        }
        if waiting[j] != id {
            kept.push(waiting[j]);
        }
        j += 1;
    }
    assert(waiting@.subrange(0, j as int) =~= waiting@);
    kept
}

/// The register file with its scoreboard: 32 general registers, HI and LO,
/// each free or owned by one instruction in flight.
pub struct Registers {
    slots: Vec<Slot>,
    verbose: bool,
}

impl View for Registers {
    type V = Seq<RegisterState>;

    closed spec fn view(&self) -> Seq<RegisterState> {
        Seq::new(self.slots@.len(), |i: int| self.slots@[i].state())
    }
}

impl Registers {
    /// Whether the registers are those of a scoreboard.
    pub open spec fn wf(&self) -> bool {
        wf(self@)
    }

    /// Makes the register file: every register free and zero.
    pub fn new(verbose: bool) -> (r: Registers)
        ensures
            r@ == Seq::new(SLOTS as nat, |i: int| RegisterState::free(0)),
            r.wf(),
    {
        let mut slots: Vec<Slot> = Vec::new();
        let mut i: usize = 0;
        while i < SLOTS
            invariant
                i <= SLOTS,
                slots@.len() == i,
                forall|j: int| 0 <= j < i ==> (#[trigger] slots@[j]).state() == RegisterState::free(0),
            decreases SLOTS - i,
        {
            slots.push(Slot { value: 0, owner: None, waiting: Vec::new() });
            assert(slots@[i as int].state() =~= RegisterState::free(0));
            i += 1;
        }
        let ghost view = Seq::new(slots@.len(), |i: int| slots@[i].state());
        assert(view =~= Seq::new(SLOTS as nat, |i: int| RegisterState::free(0)));
        Registers { slots, verbose }
    }

    /// Reads a register. Register 0 always reads as 0. A register that an
    /// instruction owns is not read: the answer names the owner.
    pub fn fetch(&self, register_number: u32) -> (res: Result<Available, RegisterError>)
        requires
            self.wf(),
            is_register(register_number),
        ensures
            res == reading(self@, register_number),
    {
        if register_number == 0 {
            return Ok(Available { value: 0 });
        }
        let slot = &self.slots[register_number as usize];
        match slot.owner {
            Some(owner) => Err(RegisterError::LockedWithHandle(owner, register_number)),
            None => Ok(Available { value: slot.value }),
        }
    }

    /// The handle of the instruction that owns a register, if one does.
    pub fn owner_of(&self, register_number: u32) -> (res: Option<usize>)
        requires
            self.wf(),
            is_register(register_number),
        ensures
            res == self@[register_number as int].owner,
    {
        self.slots[register_number as usize].owner
    }

    /// The word in a register, whether an instruction owns it or not.
    pub fn value_of(&self, register_number: u32) -> (value: u32)
        requires
            self.wf(),
            is_register(register_number),
        ensures
            value == self@[register_number as int].value,
    {
        self.slots[register_number as usize].value
    }

    /// Asks for a register as the destination of the instruction
    /// `accessor_id`. A free register becomes the instruction's. For a
    /// register that is owned the instruction is put in line behind those
    /// that wait already, and the answer names the owner. Register 0 is
    /// granted to everyone and never locked.
    pub fn lock_for_write(&mut self, register_number: u32, accessor_id: usize) -> (res: Result<
        SuccessfulOwn,
        RegisterError,
    >)
        requires
            old(self).wf(),
            is_register(register_number),
        ensures
            final(self).wf(),
            (final(self)@, res) == locking(old(self)@, register_number, accessor_id),
    {
        if register_number == 0 {
            return Ok(SuccessfulOwn { register_number: 0 });
        }
        let r: usize = register_number as usize;
        match self.slots[r].owner {
            Some(owner) => {
                self.slots[r].waiting.push(accessor_id);
                assert(self@ =~= old(self)@.update(
                    register_number as int,
                    RegisterState {
                        waiting: old(self)@[register_number as int].waiting.push(accessor_id),
                        ..old(self)@[register_number as int]
                    },
                ));
                Err(RegisterError::LockedWithHandle(owner, register_number))
            },
            None => {
                self.slots[r].owner = Some(accessor_id);
                assert(self@ =~= old(self)@.update(
                    register_number as int,
                    RegisterState {
                        locked: true,
                        owner: Some(accessor_id),
                        ..old(self)@[register_number as int]
                    },
                ));
                Ok(SuccessfulOwn { register_number })
            },
        }
    }

    /// Writes `contents` to a register and lets go of it, for the
    /// instruction `accessor_id` that owns it. The first instruction in line
    /// owns the register next. A write by any other instruction is refused,
    /// and the answer names the owner. A write to register 0 is dropped.
    pub fn write_and_unlock(&mut self, register_number: u32, contents: u32, accessor_id: usize) -> (res:
        Result<(), RegisterError>)
        requires
            old(self).wf(),
            is_register(register_number),
            register_number != 0 ==> old(self)@[register_number as int].locked,
        ensures
            final(self).wf(),
            (final(self)@, res) == writing(old(self)@, register_number, contents, accessor_id),
    {
        if register_number == 0 {
            return Ok(());
        }
        let r: usize = register_number as usize;
        proof {
            assert(old(self)@[register_number as int].wf());
        }
        let owner: usize = self.slots[r].owner.unwrap();
        if owner == accessor_id {
            self.slots[r].value = contents;
            self.release(r);
            assert(self@ =~= old(self)@.update(
                register_number as int,
                (RegisterState {
                    value: contents,
                    ..old(self)@[register_number as int]
                }).released(),
            ));
            Ok(())
        } else {
            Err(RegisterError::NotOwned(owner, register_number))
        }
    }

    /// Strikes the instruction `id` from the scoreboard: it waits for no
    /// register any more, and every register that it owns goes to the first
    /// instruction in line for it, or is free where none waits. No value changes.
    pub fn delist_owner(&mut self, id: usize)
        requires
            old(self).wf(),
        ensures
            final(self).wf(),
            final(self)@ == Seq::new(SLOTS as nat, |i: int| old(self)@[i].without(id)),
    {
        proof {
            lemma_without(old(self)@[0], id);
        }
        let mut r: usize = 1;
        while r < SLOTS
            invariant
                1 <= r <= SLOTS,
                old(self).wf(),
                self.slots@.len() == SLOTS,
                forall|i: int| 0 <= i < r ==> (#[trigger] self@[i]) == old(self)@[i].without(id),
                forall|i: int| r <= i < SLOTS ==> (#[trigger] self.slots@[i]) == old(self).slots@[i],
            decreases SLOTS - r,
        {
            let ghost before = self.slots@;
            let ghost seen = self@;
            let kept = keep_others(&self.slots[r].waiting, id);
            self.slots[r].waiting = kept;
            assert(forall|i: int| 0 <= i < SLOTS && i != r ==> self.slots@[i] == before[i]);
            match self.slots[r].owner {
                Some(owner) => {
                    if owner == id {
                        self.release(r);
                    }
                },
                None => {},
            }
            assert(self@[r as int] == old(self)@[r as int].without(id));
            assert forall|i: int| 0 <= i < r implies (#[trigger] self@[i]) == old(self)@[i].without(
                id,
            ) by {
                assert(self.slots@[i] == before[i]);
                assert(seen[i] == before[i].state());
            }
            r += 1;
        }
        assert(self@ =~= Seq::new(SLOTS as nat, |i: int| old(self)@[i].without(id)));
        assert forall|i: int| 0 <= i < self@.len() implies (#[trigger] self@[i]).wf() by {
            lemma_without(old(self)@[i], id);
        }
    }

    /// Lets go of the register in slot `r`.
    fn release(&mut self, r: usize)
        requires
            0 < r < SLOTS,
            old(self).slots@.len() == SLOTS,
            old(self).slots@[r as int].owner is Some,
        ensures
            final(self).slots@.len() == SLOTS,
            forall|i: int|
                0 <= i < SLOTS && i != r ==> final(self).slots@[i] == old(self).slots@[i],
            final(self).slots@[r as int].state() == old(self).slots@[r as int].state().released(),
    {
        if self.slots[r].waiting.len() > 0 {
            let next = self.slots[r].waiting.remove(0);
            self.slots[r].owner = Some(next);
            assert(self.slots@[r as int].waiting@ =~= old(self).slots@[r as int].waiting@.drop_first());
        } else {
            self.slots[r].owner = None;
            assert(self.slots@[r as int].waiting@ =~= Seq::empty());
        }
    }
}

} // verus!
