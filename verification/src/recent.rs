//! The list of resources a user viewed most recently.

use std::collections::VecDeque;
use vstd::prelude::*;
use crate::error::CoreError;
use crate::text::same_text;

verus! {

/// How many resources the list holds at most.
pub const RECENTLY_VIEWED_MAX: usize = 10;

/// The kinds of resource a user can view.
#[derive(Clone, Copy, Debug, PartialEq, Eq, Structural)]
pub enum ResourceKind {
    System,
    Build,
    Builder,
    Deployment,
    Server,
    Repo,
    Alerter,
    Stack,
}

/// A resource, named by its kind and id.
#[derive(Clone, Debug, PartialEq, Eq)]
pub struct ResourceTarget {
    pub kind: ResourceKind,
    pub id: String,
}

/// A resource target as a mathematical value.
pub struct TargetView {
    pub kind: ResourceKind,
    pub id: Seq<char>,
}

impl View for ResourceTarget {
    type V = TargetView;

    open spec fn view(&self) -> TargetView {
        TargetView { kind: self.kind, id: self.id@ }
    }
}

impl ResourceTarget {
    /// Whether two targets name the same resource.
    pub fn same(&self, other: &ResourceTarget) -> (same: bool)
        ensures
            same == (self@ == other@),
    {
        self.kind == other.kind && same_text(self.id.as_str(), other.id.as_str())
    }

    /// A copy of the target.
    pub fn duplicate(&self) -> (copy: ResourceTarget)
        ensures
            copy@ == self@,
    {
        ResourceTarget { kind: self.kind, id: self.id.clone() }
    }
}

/// The views of a sequence of targets.
pub open spec fn target_views(targets: Seq<ResourceTarget>) -> Seq<TargetView> {
    targets.map_values(|target: ResourceTarget| target@)
}

/// The targets of `list` other than `target`, in their order.
pub open spec fn others(list: Seq<TargetView>, target: TargetView) -> Seq<TargetView>
    decreases list.len(),
{
    if list.len() == 0 {
        Seq::empty()
    } else if list.last() == target {
        others(list.drop_last(), target)
    } else {
        others(list.drop_last(), target).push(list.last())
    }
}

/// The first `n` elements of `list`, or all of it where it is shorter.
pub open spec fn first_n(list: Seq<TargetView>, n: int) -> Seq<TargetView> {
    if list.len() <= n {
        list
    } else {
        list.subrange(0, n)
    }
}

/// The list after `target` was viewed: `target` first, then the targets
/// viewed before it, without `target`, as far as the list has room.
pub open spec fn viewed(list: Seq<TargetView>, target: TargetView) -> Seq<TargetView> {
    seq![target] + first_n(others(list, target), RECENTLY_VIEWED_MAX - 1)
}

/// After a view the list starts with the target viewed, holds it once,
/// and is no longer than the maximum.
pub proof fn lemma_viewed(list: Seq<TargetView>, target: TargetView)
    ensures
        viewed(list, target).len() <= RECENTLY_VIEWED_MAX,
        viewed(list, target)[0] == target,
        forall|i: int| 1 <= i < viewed(list, target).len() ==> viewed(list, target)[i] != target,
{
    lemma_others_exclude(list, target);
    let rest = first_n(others(list, target), RECENTLY_VIEWED_MAX - 1);
    assert forall|i: int| 1 <= i < viewed(list, target).len() implies viewed(list, target)[i]
        != target by {
        assert(viewed(list, target)[i] == rest[i - 1]);
        assert(rest[i - 1] == others(list, target)[i - 1]);
    }
}

proof fn lemma_others_exclude(list: Seq<TargetView>, target: TargetView)
    ensures
        forall|i: int| 0 <= i < others(list, target).len() ==> others(list, target)[i] != target,
    decreases list.len(),
{
    if list.len() > 0 {
        lemma_others_exclude(list.drop_last(), target);
    }
}

/// Records that a user viewed `resource`.
pub fn push_recently_viewed(recently_viewed: &Vec<ResourceTarget>, resource: ResourceTarget) -> (list:
    VecDeque<ResourceTarget>)
    ensures
        target_views(list@) == viewed(target_views(recently_viewed@), resource@),
{
    let ghost target = resource@;
    let ghost before = target_views(recently_viewed@);
    let mut list: VecDeque<ResourceTarget> = VecDeque::new();
    let mut i: usize = 0;
    while i < recently_viewed.len()
        invariant
            i <= recently_viewed@.len(),
            target == resource@,
            before == target_views(recently_viewed@),
            target_views(list@) == first_n(
                others(before.subrange(0, i as int), target),
                RECENTLY_VIEWED_MAX - 1,
            ),
        decreases recently_viewed@.len() - i,
    {
        proof {
            assert(before.subrange(0, i + 1).drop_last() =~= before.subrange(0, i as int));
            assert(before.subrange(0, i + 1).last() == recently_viewed@[i as int]@);
        }
        let ghost held = target_views(list@);
        if !recently_viewed[i].same(&resource) && list.len() < RECENTLY_VIEWED_MAX - 1 {
            list.push_back(recently_viewed[i].duplicate());
            assert(target_views(list@) =~= held.push(recently_viewed@[i as int]@));
        }
        assert(target_views(list@) =~= first_n(
            others(before.subrange(0, i + 1), target),
            RECENTLY_VIEWED_MAX - 1,
        ));
        i += 1;
    }
    assert(before.subrange(0, i as int) =~= before);
    let ghost rest = target_views(list@);
    list.push_front(resource);
    assert(target_views(list@) =~= seq![target] + rest);
    list
}

/// Records a view for a user the store was asked for. A user the store
/// does not have is `NotFound`.
pub fn resolve_push_recently_viewed(
    recently_viewed: Option<&Vec<ResourceTarget>>,
    resource: ResourceTarget,
) -> (outcome: Result<VecDeque<ResourceTarget>, CoreError>)
    ensures
        match recently_viewed {
            Some(list) => outcome matches Ok(next) && target_views(next@) == viewed(
                target_views(list@),
                resource@,
            ),
            None => outcome matches Err(error) && error == CoreError::NotFound,
        },
{
    match recently_viewed {
        Some(list) => Ok(push_recently_viewed(list, resource)),
        None => Err(CoreError::NotFound),
    }
}

} // verus!
