//! Counting stacks by the state the cache holds for them.

use vstd::prelude::*;
use crate::cache::{SnapshotView, StackState, StatusCache, snapshot_of};
use crate::stack::Stack;

verus! {

/// The groups in which a summary counts stacks.
#[derive(Clone, Copy, Debug, PartialEq, Eq, Structural)]
pub enum StateClass {
    Running,
    Stopped,
    Down,
    Unknown,
    Unhealthy,
}

/// The counters of a summary.
#[derive(Clone, Copy, Debug, PartialEq, Eq, Structural)]
pub struct GetStacksSummaryResponse {
    /// All stacks counted.
    pub total: u32,
    /// Stacks in state `Running`.
    pub running: u32,
    /// Stacks in state `Stopped` or `Paused`.
    pub stopped: u32,
    /// Stacks in state `Down`.
    pub down: u32,
    /// Stacks whose state is not known.
    pub unknown: u32,
    /// Stacks in any other state.
    pub unhealthy: u32,
}

/// The group a state is counted in.
pub open spec fn class_of(state: StackState) -> StateClass {
    match state {
        StackState::Running => StateClass::Running,
        StackState::Stopped | StackState::Paused => StateClass::Stopped,
        StackState::Down => StateClass::Down,
        StackState::Unknown => StateClass::Unknown,
        _ => StateClass::Unhealthy,
    }
}

/// How many of `states` are counted in `class`.
pub open spec fn count_class(states: Seq<StackState>, class: StateClass) -> nat
    decreases states.len(),
{
    if states.len() == 0 {
        0
    } else {
        count_class(states.drop_last(), class) + if class_of(states.last()) == class {
            1nat
        } else {
            0nat
        }
    }
}

/// The current state of each stack, as the cache holds it; `Unknown` for a
/// stack without an entry.
pub open spec fn cached_states(
    cache: Map<Seq<char>, SnapshotView>,
    stacks: Seq<Stack>,
) -> Seq<StackState> {
    stacks.map_values(|stack: Stack| snapshot_of(cache, stack.id@).curr.state)
}

/// Whether `summary` counts `states` group by group.
pub open spec fn summarizes(summary: GetStacksSummaryResponse, states: Seq<StackState>) -> bool {
    &&& summary.total == states.len()
    &&& summary.running == count_class(states, StateClass::Running)
    &&& summary.stopped == count_class(states, StateClass::Stopped)
    &&& summary.down == count_class(states, StateClass::Down)
    &&& summary.unknown == count_class(states, StateClass::Unknown)
    &&& summary.unhealthy == count_class(states, StateClass::Unhealthy)
}

/// Every state is counted in exactly one group, so the groups add up to
/// the total.
pub proof fn lemma_classes_partition(states: Seq<StackState>)
    ensures
        count_class(states, StateClass::Running) + count_class(states, StateClass::Stopped)
            + count_class(states, StateClass::Down) + count_class(states, StateClass::Unknown)
            + count_class(states, StateClass::Unhealthy) == states.len(),
    decreases states.len(),
{
    if states.len() > 0 {
        lemma_classes_partition(states.drop_last());
    }
}

/// The group a state is counted in.
pub fn classify(state: StackState) -> (class: StateClass)
    ensures
        class == class_of(state),
{
    match state {
        StackState::Running => StateClass::Running,
        StackState::Stopped | StackState::Paused => StateClass::Stopped,
        StackState::Down => StateClass::Down,
        StackState::Unknown => StateClass::Unknown,
        _ => StateClass::Unhealthy,
    }
}

/// Counts the stacks visible to a user by their cached state.
pub fn get_stacks_summary(stacks: &Vec<Stack>, cache: &StatusCache) -> (summary:
    GetStacksSummaryResponse)
    requires
        cache.wf(),
        stacks@.len() <= u32::MAX,
    ensures
        summarizes(summary, cached_states(cache@, stacks@)),
{
    let mut summary = GetStacksSummaryResponse {
        total: 0,
        running: 0,
        stopped: 0,
        down: 0,
        unknown: 0,
        unhealthy: 0,
    };
    let mut i: usize = 0;
    while i < stacks.len()
        invariant
            i <= stacks@.len(),
            stacks@.len() <= u32::MAX,
            cache.wf(),
            summarizes(summary, cached_states(cache@, stacks@).subrange(0, i as int)),
        decreases stacks@.len() - i,
    {
        proof {
            let states = cached_states(cache@, stacks@);
            assert(states.subrange(0, i + 1).drop_last() =~= states.subrange(0, i as int));
            lemma_classes_partition(states.subrange(0, i as int));
        }
        let state = cache.state(stacks[i].id.as_str());
        summary.total += 1;
        match classify(state) {
            StateClass::Running => summary.running += 1,
            StateClass::Stopped => summary.stopped += 1,
            StateClass::Down => summary.down += 1,
            StateClass::Unknown => summary.unknown += 1,
            StateClass::Unhealthy => summary.unhealthy += 1,
        }
        i += 1;
    }
    assert(cached_states(cache@, stacks@).subrange(0, i as int) =~= cached_states(
        cache@,
        stacks@,
    ));
    summary
}

} // verus!
