//! Per-resource action flags: which operation, if any, is in flight on a
//! stack, and the guarded transition that keeps operations on one stack
//! from overlapping.

use vstd::prelude::*;

verus! {

/// The kinds of operation that can be in flight on a stack.
#[derive(Clone, Copy, Debug, PartialEq, Eq, Structural)]
pub enum ActionFlag {
    Pulling,
    Deploying,
    Starting,
    Restarting,
    Pausing,
    Unpausing,
    Stopping,
    Destroying,
}

/// The action flags of one stack. Every flag conflicts with every other:
/// a stack with any flag set is busy.
#[derive(Clone, Copy, Debug, PartialEq, Eq, Structural)]
pub struct StackActionState {
    pub pulling: bool,
    pub deploying: bool,
    pub starting: bool,
    pub restarting: bool,
    pub pausing: bool,
    pub unpausing: bool,
    pub stopping: bool,
    pub destroying: bool,
}

/// The refusal of a guarded transition: an operation is already in flight.
#[derive(Clone, Copy, Debug, PartialEq, Eq, Structural)]
pub struct Busy {
    /// The flag that was found set.
    pub flag: ActionFlag,
}

impl StackActionState {
    /// The state with no operation in flight.
    pub open spec fn idle() -> Self {
        StackActionState {
            pulling: false,
            deploying: false,
            starting: false,
            restarting: false,
            pausing: false,
            unpausing: false,
            stopping: false,
            destroying: false,
        }
    }

    /// Whether `flag` is set.
    pub open spec fn holds(self, flag: ActionFlag) -> bool {
        match flag {
            ActionFlag::Pulling => self.pulling,
            ActionFlag::Deploying => self.deploying,
            ActionFlag::Starting => self.starting,
            ActionFlag::Restarting => self.restarting,
            ActionFlag::Pausing => self.pausing,
            ActionFlag::Unpausing => self.unpausing,
            ActionFlag::Stopping => self.stopping,
            ActionFlag::Destroying => self.destroying,
        }
    }

    /// This state with `flag` set to `value`.
    pub open spec fn with(self, flag: ActionFlag, value: bool) -> Self {
        match flag {
            ActionFlag::Pulling => StackActionState { pulling: value, ..self },
            ActionFlag::Deploying => StackActionState { deploying: value, ..self },
            ActionFlag::Starting => StackActionState { starting: value, ..self },
            ActionFlag::Restarting => StackActionState { restarting: value, ..self },
            ActionFlag::Pausing => StackActionState { pausing: value, ..self },
            ActionFlag::Unpausing => StackActionState { unpausing: value, ..self },
            ActionFlag::Stopping => StackActionState { stopping: value, ..self },
            ActionFlag::Destroying => StackActionState { destroying: value, ..self },
        }
    }

    /// Whether any flag is set.
    pub open spec fn is_busy(self) -> bool {
        exists|flag: ActionFlag| self.holds(flag)
    }

    /// The first flag that is set, in the order of declaration.
    pub open spec fn first_set(self) -> Option<ActionFlag> {
        if self.pulling {
            Some(ActionFlag::Pulling)
        } else if self.deploying {
            Some(ActionFlag::Deploying)
        } else if self.starting {
            Some(ActionFlag::Starting)
        } else if self.restarting {
            Some(ActionFlag::Restarting)
        } else if self.pausing {
            Some(ActionFlag::Pausing)
        } else if self.unpausing {
            Some(ActionFlag::Unpausing)
        } else if self.stopping {
            Some(ActionFlag::Stopping)
        } else if self.destroying {
            Some(ActionFlag::Destroying)
        } else {
            None
        }
    }

    /// Whether no two different flags are set.
    pub open spec fn at_most_one(self) -> bool {
        forall|f: ActionFlag, g: ActionFlag| self.holds(f) && self.holds(g) ==> f == g
    }

    /// The state with no operation in flight.
    pub fn new() -> (state: Self)
        ensures
            state == Self::idle(),
    {
        StackActionState {
            pulling: false,
            deploying: false,
            starting: false,
            restarting: false,
            pausing: false,
            unpausing: false,
            stopping: false,
            destroying: false,
        }
    }

    /// Reads one flag.
    pub fn get(&self, flag: ActionFlag) -> (value: bool)
        ensures
            value == self.holds(flag),
    {
        match flag {
            ActionFlag::Pulling => self.pulling,
            ActionFlag::Deploying => self.deploying,
            ActionFlag::Starting => self.starting,
            ActionFlag::Restarting => self.restarting,
            ActionFlag::Pausing => self.pausing,
            ActionFlag::Unpausing => self.unpausing,
            ActionFlag::Stopping => self.stopping,
            ActionFlag::Destroying => self.destroying,
        }
    }

    /// Writes one flag and leaves the others as they are.
    pub fn set(&mut self, flag: ActionFlag, value: bool)
        ensures
            *final(self) == old(self).with(flag, value),
    {
        match flag {
            ActionFlag::Pulling => self.pulling = value,
            ActionFlag::Deploying => self.deploying = value,
            ActionFlag::Starting => self.starting = value,
            ActionFlag::Restarting => self.restarting = value,
            ActionFlag::Pausing => self.pausing = value,
            ActionFlag::Unpausing => self.unpausing = value,
            ActionFlag::Stopping => self.stopping = value,
            ActionFlag::Destroying => self.destroying = value,
        }
    }

    /// The flag of the operation in flight, if there is one.
    pub fn busy_flag(&self) -> (found: Option<ActionFlag>)
        ensures
            found == self.first_set(),
            found is Some <==> self.is_busy(),
            found matches Some(flag) ==> self.holds(flag),
    {
        let found = if self.pulling {
            Some(ActionFlag::Pulling)
        } else if self.deploying {
            Some(ActionFlag::Deploying)
        } else if self.starting {
            Some(ActionFlag::Starting)
        } else if self.restarting {
            Some(ActionFlag::Restarting)
        } else if self.pausing {
            Some(ActionFlag::Pausing)
        } else if self.unpausing {
            Some(ActionFlag::Unpausing)
        } else if self.stopping {
            Some(ActionFlag::Stopping)
        } else if self.destroying {
            Some(ActionFlag::Destroying)
        } else {
            None
        };
        proof {
            match found {
                Some(flag) => {
                    assert(self.holds(flag));
                },
                None => {
                    assert forall|flag: ActionFlag| !self.holds(flag) by {}
                },
            }
        }
        found
    }

    /// Whether an operation is in flight.
    pub fn busy(&self) -> (busy: bool)
        ensures
            busy == self.is_busy(),
    {
        self.busy_flag().is_some()
    }
}

impl Default for StackActionState {
    fn default() -> (state: Self)
        ensures
            state == StackActionState::idle(),
    {
        StackActionState::new()
    }
}

/// A state with exactly one flag set answers `first_set` with that flag.
pub proof fn lemma_single_flag(flag: ActionFlag)
    ensures
        StackActionState::idle().with(flag, true).first_set() == Some(flag),
        StackActionState::idle().with(flag, true).is_busy(),
        StackActionState::idle().with(flag, true).at_most_one(),
        StackActionState::idle().with(flag, true).holds(flag),
        !StackActionState::idle().is_busy(),
        StackActionState::idle().at_most_one(),
        StackActionState::idle().first_set() is None,
{
    let state = StackActionState::idle().with(flag, true);
    assert(state.holds(flag));
    assert forall|f: ActionFlag| !StackActionState::idle().holds(f) by {}
    assert forall|f: ActionFlag, g: ActionFlag| state.holds(f) && state.holds(g) implies f
        == g by {}
}

} // verus!
