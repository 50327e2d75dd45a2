//! Permission levels and the check every handler passes before it touches
//! a resource.

use vstd::prelude::*;
use crate::error::CoreError;

verus! {

/// What a user may do with a resource. The levels are ordered:
/// `NoAccess < Read < Execute < Write`.
#[derive(Clone, Copy, Debug, PartialEq, Eq, Structural)]
pub enum PermissionLevel {
    NoAccess,
    Read,
    Execute,
    Write,
}

/// The user on whose behalf a request runs.
#[derive(Clone, Debug, PartialEq, Eq)]
pub struct User {
    pub id: String,
    pub username: String,
    /// Administrators pass every permission check.
    pub admin: bool,
}

impl PermissionLevel {
    /// The position of the level in the order, from 0 for `NoAccess`.
    pub open spec fn rank(self) -> nat {
        match self {
            PermissionLevel::NoAccess => 0,
            PermissionLevel::Read => 1,
            PermissionLevel::Execute => 2,
            PermissionLevel::Write => 3,
        }
    }

    /// Whether this level is at least `required`.
    pub open spec fn covers(self, required: PermissionLevel) -> bool {
        self.rank() >= required.rank()
    }

    /// The position of the level in the order.
    pub fn level(self) -> (rank: u8)
        ensures
            rank == self.rank(),
    {
        match self {
            PermissionLevel::NoAccess => 0,
            PermissionLevel::Read => 1,
            PermissionLevel::Execute => 2,
            PermissionLevel::Write => 3,
        }
    }

    /// Whether this level is at least `required`.
    pub fn at_least(self, required: PermissionLevel) -> (enough: bool)
        ensures
            enough == self.covers(required),
    {
        self.level() >= required.level()
    }

    /// The higher of two levels.
    pub fn higher(self, other: PermissionLevel) -> (level: PermissionLevel)
        ensures
            level == higher_of(self, other),
    {
        if self.level() >= other.level() {
            self
        } else {
            other
        }
    }
}

/// The higher of two levels.
pub open spec fn higher_of(a: PermissionLevel, b: PermissionLevel) -> PermissionLevel {
    if a.rank() >= b.rank() {
        a
    } else {
        b
    }
}

/// The highest of the levels in `assignments`; `NoAccess` where there are none.
pub open spec fn effective_level(assignments: Seq<PermissionLevel>) -> PermissionLevel
    decreases assignments.len(),
{
    if assignments.len() == 0 {
        PermissionLevel::NoAccess
    } else {
        higher_of(effective_level(assignments.drop_last()), assignments.last())
    }
}

/// The effective level is an upper bound of the assignments, and it is one
/// of them unless it is `NoAccess`.
pub proof fn lemma_effective_level_is_maximum(assignments: Seq<PermissionLevel>)
    ensures
        forall|i: int|
            0 <= i < assignments.len() ==> effective_level(assignments).covers(
                #[trigger] assignments[i],
            ),
        effective_level(assignments) != PermissionLevel::NoAccess ==> assignments.contains(
            effective_level(assignments),
        ),
    decreases assignments.len(),
{
    if assignments.len() > 0 {
        let front = assignments.drop_last();
        lemma_effective_level_is_maximum(front);
        assert forall|i: int| 0 <= i < assignments.len() implies effective_level(
            assignments,
        ).covers(#[trigger] assignments[i]) by {
            if i < front.len() {
                assert(front[i] == assignments[i]);
            }
        }
        if effective_level(assignments) != PermissionLevel::NoAccess {
            if effective_level(assignments) == assignments.last() {
                assert(assignments[assignments.len() - 1] == assignments.last());
            } else {
                let k = choose|k: int| 0 <= k < front.len() && front[k] == effective_level(front);
                assert(assignments[k] == effective_level(assignments));
            }
        }
    }
}

/// The user's effective level on a resource: the highest of the levels
/// assigned directly and through groups or defaults.
pub fn user_permission(assignments: &Vec<PermissionLevel>) -> (level: PermissionLevel)
    ensures
        level == effective_level(assignments@),
{
    let mut level = PermissionLevel::NoAccess;
    let mut i: usize = 0;
    while i < assignments.len()
        invariant
            i <= assignments@.len(),
            level == effective_level(assignments@.subrange(0, i as int)),
        decreases assignments@.len() - i,
    {
        proof {
            assert(assignments@.subrange(0, i + 1).drop_last() =~= assignments@.subrange(
                0,
                i as int,
            ));
        }
        level = level.higher(assignments[i]);
        i += 1;
    }
    assert(assignments@.subrange(0, i as int) =~= assignments@);
    level
}

/// Whether a user with these assignments passes the permission check.
pub open spec fn permitted(
    admin: bool,
    assignments: Seq<PermissionLevel>,
    required: PermissionLevel,
) -> bool {
    admin || effective_level(assignments).covers(required)
}

/// What the permission check answers for a lookup result and a user.
pub open spec fn checked<R>(
    found: Option<R>,
    admin: bool,
    assignments: Seq<PermissionLevel>,
    required: PermissionLevel,
) -> Result<R, CoreError> {
    match found {
        None => Err(CoreError::NotFound),
        Some(resource) => if permitted(admin, assignments, required) {
            Ok(resource)
        } else {
            Err(CoreError::Unauthorized)
        },
    }
}

/// The permission check. `found` is what the store answered for the
/// resource's id or name, `assignments` the levels the permission source
/// holds for the user on that resource. An absent resource is `NotFound`;
/// a present one is handed on where the user is an administrator or the
/// effective level reaches `required`, and is `Unauthorized` otherwise.
pub fn get_check_permissions<R>(
    found: Option<R>,
    user: &User,
    assignments: &Vec<PermissionLevel>,
    required: PermissionLevel,
) -> (outcome: Result<R, CoreError>)
    ensures
        outcome == checked(found, user.admin, assignments@, required),
{
    match found {
        None => Err(CoreError::NotFound),
        Some(resource) => {
            if user.admin {
                return Ok(resource);
            }
            if user_permission(assignments).at_least(required) {
                Ok(resource)
            } else {
                Err(CoreError::Unauthorized)
            }
        },
    }
}

} // verus!
