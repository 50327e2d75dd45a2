//! The registry of action flags, one record per stack id, with guarded
//! acquisition and release.

use vstd::prelude::*;
use crate::action_state::{ActionFlag, Busy, StackActionState, lemma_single_flag};
use crate::registry::StringMap;

verus! {

/// The action flags of every stack seen so far. Records are created on
/// first access and never removed.
pub struct ActionStates {
    records: StringMap<StackActionState>,
}

/// The obligation to clear the flags of one stack. It is handed out by a
/// successful [`ActionStates::update`] and consumed by
/// [`ActionStates::release`]; it cannot be copied.
pub struct UpdateGuard {
    id: String,
    flag: ActionFlag,
}

/// The record of `id` in `records`, or the idle record where there is none.
pub open spec fn record_of(
    records: Map<Seq<char>, StackActionState>,
    id: Seq<char>,
) -> StackActionState {
    if records.contains_key(id) {
        records[id]
    } else {
        StackActionState::idle()
    }
}

/// The records after a guarded transition on `id` was attempted: the flag
/// is set where the stack was idle, and nothing changes where it was busy.
/// In both cases the stack has a record afterwards.
pub open spec fn records_after_update(
    records: Map<Seq<char>, StackActionState>,
    id: Seq<char>,
    flag: ActionFlag,
) -> Map<Seq<char>, StackActionState> {
    if record_of(records, id).is_busy() {
        records.insert(id, record_of(records, id))
    } else {
        records.insert(id, StackActionState::idle().with(flag, true))
    }
}

/// The refusal that a guarded transition on `id` meets, if any.
pub open spec fn refusal_of(records: Map<Seq<char>, StackActionState>, id: Seq<char>) -> Option<
    Busy,
> {
    match record_of(records, id).first_set() {
        Some(flag) => Some(Busy { flag }),
        None => None,
    }
}

/// The records after the guard on `id` was released.
pub open spec fn records_after_release(
    records: Map<Seq<char>, StackActionState>,
    id: Seq<char>,
) -> Map<Seq<char>, StackActionState> {
    records.insert(id, StackActionState::idle())
}

/// Mutual exclusion on one stack. Of two guarded transitions attempted on
/// an idle stack with no release between them, the first is granted and
/// the second is refused, naming the first one's flag and changing
/// nothing; after the release every flag of the stack is clear again.
pub proof fn law_second_update_is_refused(
    records: Map<Seq<char>, StackActionState>,
    id: Seq<char>,
    first: ActionFlag,
    second: ActionFlag,
)
    requires
        !record_of(records, id).is_busy(),
    ensures
        refusal_of(records, id) is None,
        refusal_of(records_after_update(records, id, first), id) == Some(Busy { flag: first }),
        records_after_update(records_after_update(records, id, first), id, second)
            == records_after_update(records, id, first),
        record_of(
            records_after_release(records_after_update(records, id, first), id),
            id,
        ) == StackActionState::idle(),
        forall|flag: ActionFlag|
            !record_of(
                records_after_release(records_after_update(records, id, first), id),
                id,
            ).holds(flag),
{
    lemma_single_flag(first);
    let held = records_after_update(records, id, first);
    assert(record_of(held, id) == StackActionState::idle().with(first, true));
    assert(records_after_update(held, id, second) =~= held);
    assert(record_of(records, id).first_set() is None) by {
        if record_of(records, id).first_set() is Some {
            assert(record_of(records, id).holds(record_of(records, id).first_set()->Some_0));
        }
    }
}

/// Stacks do not contend: a guarded transition or a release on one stack
/// leaves the record of every other stack as it was.
pub proof fn law_other_stacks_untouched(
    records: Map<Seq<char>, StackActionState>,
    id: Seq<char>,
    other: Seq<char>,
    flag: ActionFlag,
)
    requires
        id != other,
    ensures
        record_of(records_after_update(records, id, flag), other) == record_of(records, other),
        record_of(records_after_release(records, id), other) == record_of(records, other),
        refusal_of(records_after_update(records, id, flag), other) == refusal_of(records, other),
{
}

/// Release is idempotent, and it clears the stack whatever flag was set.
pub proof fn law_release_clears(records: Map<Seq<char>, StackActionState>, id: Seq<char>)
    ensures
        record_of(records_after_release(records, id), id) == StackActionState::idle(),
        !record_of(records_after_release(records, id), id).is_busy(),
        refusal_of(records_after_release(records, id), id) is None,
        records_after_release(records_after_release(records, id), id) == records_after_release(
            records,
            id,
        ),
{
    lemma_single_flag(ActionFlag::Pulling);
    assert(records_after_release(records_after_release(records, id), id)
        =~= records_after_release(records, id));
}

impl UpdateGuard {
    /// The stack whose flags the guard will clear.
    pub closed spec fn id(&self) -> Seq<char> {
        self.id@
    }

    /// The flag that was set when the guard was handed out.
    pub closed spec fn flag(&self) -> ActionFlag {
        self.flag
    }

    /// The stack whose flags the guard will clear.
    pub fn stack_id(&self) -> (id: &String)
        ensures
            id@ == self.id(),
    {
        &self.id
    }

    /// The flag that was set when the guard was handed out.
    pub fn held_flag(&self) -> (flag: ActionFlag)
        ensures
            flag == self.flag(),
    {
        self.flag
    }
}

impl View for ActionStates {
    type V = Map<Seq<char>, StackActionState>;

    closed spec fn view(&self) -> Map<Seq<char>, StackActionState> {
        self.records@
    }
}

impl ActionStates {
    /// No stack has two records, and no record has two flags set.
    pub closed spec fn wf(&self) -> bool {
        &&& self.records.wf()
        &&& forall|id: Seq<char>|
            self.records@.contains_key(id) ==> (#[trigger] self.records@[id]).at_most_one()
    }

    /// In a valid registry every record has at most one flag set.
    pub proof fn lemma_records_exclusive(&self, id: Seq<char>)
        requires
            self.wf(),
        ensures
            record_of(self@, id).at_most_one(),
    {
        lemma_single_flag(ActionFlag::Pulling);
    }

    /// An empty registry.
    pub fn new() -> (states: Self)
        ensures
            states.wf(),
            states@ == Map::<Seq<char>, StackActionState>::empty(),
    {
        ActionStates { records: StringMap::new() }
    }

    /// The record of `id`, if the stack has one. Readers take this
    /// snapshot without acquiring anything.
    pub fn get(&self, id: &str) -> (found: Option<StackActionState>)
        requires
            self.wf(),
        ensures
            found == if self@.contains_key(id@) {
                Some(self@[id@])
            } else {
                None
            },
    {
        match self.records.get(id) {
            Some(state) => Some(*state),
            None => None,
        }
    }

    fn store(&mut self, id: &str, state: StackActionState)
        requires
            old(self).wf(),
            state.at_most_one(),
        ensures
            final(self).wf(),
            final(self)@ == old(self)@.insert(id@, state),
    {
        self.records.insert(id, state);
    }

    /// The record of `id`, created idle where the stack had none.
    pub fn get_or_insert_default(&mut self, id: &str) -> (state: StackActionState)
        requires
            old(self).wf(),
        ensures
            final(self).wf(),
            state == record_of(old(self)@, id@),
            final(self)@ == old(self)@.insert(id@, state),
    {
        match self.get(id) {
            Some(state) => {
                assert(self@ =~= self@.insert(id@, state));
                state
            },
            None => {
                let state = StackActionState::new();
                proof {
                    lemma_single_flag(ActionFlag::Pulling);
                }
                self.store(id, state);
                state
            },
        }
    }

    /// The guarded transition. Where the stack is idle, `flag` is set and a
    /// guard is handed out. Where any flag is already set, nothing is set
    /// and the refusal names the flag found.
    pub fn update(&mut self, id: &str, flag: ActionFlag) -> (outcome: Result<UpdateGuard, Busy>)
        requires
            old(self).wf(),
        ensures
            final(self).wf(),
            final(self)@ == records_after_update(old(self)@, id@, flag),
            match outcome {
                Ok(guard) => refusal_of(old(self)@, id@) is None && guard.id() == id@
                    && guard.flag() == flag,
                Err(busy) => refusal_of(old(self)@, id@) == Some(busy),
            },
            outcome is Err <==> record_of(old(self)@, id@).is_busy(),
    {
        let current = self.get_or_insert_default(id);
        match current.busy_flag() {
            Some(held) => Err(Busy { flag: held }),
            None => {
                let mut next = StackActionState::new();
                next.set(flag, true);
                proof {
                    lemma_single_flag(flag);
                }
                self.store(id, next);
                assert(self@ =~= records_after_update(old(self)@, id@, flag));
                Ok(UpdateGuard { id: id.to_owned(), flag })
            },
        }
    }

    /// Consumes a guard and clears every flag of its stack.
    pub fn release(&mut self, guard: UpdateGuard)
        requires
            old(self).wf(),
        ensures
            final(self).wf(),
            final(self)@ == records_after_release(old(self)@, guard.id()),
            record_of(final(self)@, guard.id()) == StackActionState::idle(),
    {
        proof {
            lemma_single_flag(ActionFlag::Pulling);
        }
        let id = guard.id;
        self.store(id.as_str(), StackActionState::new());
    }
}

} // verus!
