//! What the read handlers compute once a request has passed the
//! permission check.

use vstd::prelude::*;
use crate::action_state::StackActionState;
use crate::cache::{StatusCache, snapshot_of, text_views};
use crate::coordinator::{ActionStates, record_of};
use crate::error::CoreError;
use crate::permission::{PermissionLevel, User, checked, get_check_permissions};
use crate::stack::{Server, ServerState, Stack, get_stack_and_server, stack_and_server};
use crate::text::{TextOrder, compare_text, lemma_text_lt_transitive, text_lt};

verus! {

/// Whether the strings stand in strictly ascending dictionary order, so
/// that none occurs twice.
pub open spec fn strictly_sorted(texts: Seq<Seq<char>>) -> bool {
    forall|i: int, j: int| 0 <= i < j < texts.len() ==> text_lt(texts[i], texts[j])
}

/// Puts `text` at its place in a sorted list, unless the list has it.
pub fn insert_sorted(list: &mut Vec<String>, text: &str)
    requires
        strictly_sorted(text_views(old(list)@)),
    ensures
        strictly_sorted(text_views(final(list)@)),
        forall|other: Seq<char>|
            text_views(final(list)@).contains(other) <==> (text_views(old(list)@).contains(other)
                || other == text@),
{
    let ghost before = text_views(list@);
    let mut i: usize = 0;
    while i < list.len()
        invariant
            i <= list@.len(),
            list@ == old(list)@,
            before == text_views(list@),
            strictly_sorted(before),
            forall|k: int| 0 <= k < i ==> text_lt(#[trigger] before[k], text@),
        ensures
            i < list@.len() ==> text_lt(text@, before[i as int]),
        decreases list@.len() - i,
    {
        match compare_text(list[i].as_str(), text) {
            TextOrder::Before => {
                i += 1;
            },
            TextOrder::Same => {
                proof {
                    assert(before[i as int] == text@);
                    assert forall|other: Seq<char>| before.contains(other) <==> (before.contains(
                        other,
                    ) || other == text@) by {}
                }
                return ;
            },
            TextOrder::After => {
                break ;
            },
        }
    }
    list.insert(i, text.to_owned());
    proof {
        let after = text_views(list@);
        assert(after =~= before.insert(i as int, text@));
        assert forall|p: int, q: int| 0 <= p < q < after.len() implies text_lt(
            after[p],
            after[q],
        ) by {
            if q < i {
            } else if q == i {
            } else if p == i {
                if q - 1 > i {
                    lemma_text_lt_transitive(text@, before[i as int], before[q - 1]);
                }
            } else if p < i {
                assert(after[p] == before[p] && after[q] == before[q - 1]);
            } else {
                assert(after[p] == before[p - 1] && after[q] == before[q - 1]);
            }
        }
        assert forall|other: Seq<char>| after.contains(other) <==> (before.contains(other)
            || other == text@) by {
            if after.contains(other) {
                let k = choose|k: int| 0 <= k < after.len() && after[k] == other;
                if k < i {
                    assert(before[k] == other);
                } else if k > i {
                    assert(before[k - 1] == other);
                }
            }
            if before.contains(other) {
                let k = choose|k: int| 0 <= k < before.len() && before[k] == other;
                if k < i {
                    assert(after[k] == other);
                } else {
                    assert(after[k + 1] == other);
                }
            }
            if other == text@ {
                assert(after[i as int] == other);
            }
        }
    }
}

/// Puts every string of `texts` at its place in a sorted list.
pub fn insert_all_sorted(list: &mut Vec<String>, texts: &Vec<String>)
    requires
        strictly_sorted(text_views(old(list)@)),
    ensures
        strictly_sorted(text_views(final(list)@)),
        forall|other: Seq<char>|
            text_views(final(list)@).contains(other) <==> (text_views(old(list)@).contains(other)
                || text_views(texts@).contains(other)),
{
    let mut i: usize = 0;
    while i < texts.len()
        invariant
            i <= texts@.len(),
            strictly_sorted(text_views(list@)),
            forall|other: Seq<char>|
                text_views(list@).contains(other) <==> (text_views(old(list)@).contains(other)
                    || text_views(texts@).subrange(0, i as int).contains(other)),
        decreases texts@.len() - i,
    {
        let ghost seen = text_views(texts@).subrange(0, i as int);
        let ghost held = text_views(list@);
        insert_sorted(list, texts[i].as_str());
        proof {
            let next = text_views(texts@).subrange(0, i + 1);
            assert(next =~= seen.push(texts@[i as int]@));
            assert forall|other: Seq<char>| next.contains(other) <==> (seen.contains(other)
                || other == texts@[i as int]@) by {
                if next.contains(other) {
                    let k = choose|k: int| 0 <= k < next.len() && next[k] == other;
                    if k < i {
                        assert(seen[k] == other);
                    }
                }
                if seen.contains(other) {
                    let k = choose|k: int| 0 <= k < seen.len() && seen[k] == other;
                    assert(next[k] == other);
                }
                if other == texts@[i as int]@ {
                    assert(next[i as int] == other);
                }
            }
        }
        i += 1;
    }
    assert(text_views(texts@).subrange(0, i as int) =~= text_views(texts@));
}

/// The two lists of extra arguments a stack is configured with.
#[derive(Clone, Copy, Debug, PartialEq, Eq, Structural)]
pub enum ArgList {
    /// The arguments passed when the stack is deployed.
    Deploy,
    /// The arguments passed when the stack's images are built.
    Build,
}

/// The arguments of `stack` in the list `which`.
pub open spec fn args_of(stack: Stack, which: ArgList) -> Seq<Seq<char>> {
    match which {
        ArgList::Deploy => text_views(stack.config.extra_args@),
        ArgList::Build => text_views(stack.config.build_extra_args@),
    }
}

/// Whether some stack of `stacks` has `arg` in its list `which`.
pub open spec fn in_use(stacks: Seq<Stack>, which: ArgList, arg: Seq<char>) -> bool {
    exists|i: int| 0 <= i < stacks.len() && args_of(#[trigger] stacks[i], which).contains(arg)
}

proof fn lemma_in_use_step(stacks: Seq<Stack>, which: ArgList, i: int, arg: Seq<char>)
    requires
        0 <= i < stacks.len(),
    ensures
        in_use(stacks.subrange(0, i + 1), which, arg) <==> (in_use(
            stacks.subrange(0, i),
            which,
            arg,
        ) || args_of(stacks[i], which).contains(arg)),
{
    let seen = stacks.subrange(0, i);
    let next = stacks.subrange(0, i + 1);
    if in_use(next, which, arg) {
        let k = choose|k: int|
            0 <= k < next.len() && args_of(#[trigger] next[k], which).contains(arg);
        if k < i {
            assert(seen[k] == next[k]);
        } else {
            assert(next[k] == stacks[i]);
        }
    }
    if in_use(seen, which, arg) {
        let k = choose|k: int|
            0 <= k < seen.len() && args_of(#[trigger] seen[k], which).contains(arg);
        assert(next[k] == seen[k]);
    }
    if args_of(stacks[i], which).contains(arg) {
        assert(next[i] == stacks[i]);
    }
}

/// The arguments in use on the given stacks, from the list `which`: each
/// once, in ascending dictionary order.
pub fn list_common_args(stacks: &Vec<Stack>, which: ArgList) -> (args: Vec<String>)
    ensures
        strictly_sorted(text_views(args@)),
        forall|arg: Seq<char>| text_views(args@).contains(arg) <==> in_use(stacks@, which, arg),
{
    let mut args: Vec<String> = Vec::new();
    let mut i: usize = 0;
    assert(text_views(args@) =~= Seq::empty());
    while i < stacks.len()
        invariant
            i <= stacks@.len(),
            strictly_sorted(text_views(args@)),
            forall|arg: Seq<char>|
                text_views(args@).contains(arg) <==> in_use(
                    stacks@.subrange(0, i as int),
                    which,
                    arg,
                ),
        decreases stacks@.len() - i,
    {
        let ghost held = text_views(args@);
        match which {
            ArgList::Deploy => insert_all_sorted(&mut args, &stacks[i].config.extra_args),
            ArgList::Build => insert_all_sorted(&mut args, &stacks[i].config.build_extra_args),
        }
        proof {
            assert forall|arg: Seq<char>| text_views(args@).contains(arg) <==> in_use(
                stacks@.subrange(0, i + 1),
                which,
                arg,
            ) by {
                lemma_in_use_step(stacks@, which, i as int, arg);
                assert(held.contains(arg) <==> in_use(stacks@.subrange(0, i as int), which, arg));
                assert(text_views(args@).contains(arg) <==> (held.contains(arg) || args_of(
                    stacks@[i as int],
                    which,
                ).contains(arg)));
            }
        }
        i += 1;
    }
    assert(stacks@.subrange(0, i as int) =~= stacks@);
    args
}

/// The extra arguments in use on the given stacks: each once, in
/// ascending dictionary order.
pub fn list_common_stack_extra_args(stacks: &Vec<Stack>) -> (args: Vec<String>)
    ensures
        strictly_sorted(text_views(args@)),
        forall|arg: Seq<char>|
            text_views(args@).contains(arg) <==> in_use(stacks@, ArgList::Deploy, arg),
{
    list_common_args(stacks, ArgList::Deploy)
}

/// The build arguments in use on the given stacks: each once, in
/// ascending dictionary order.
pub fn list_common_stack_build_extra_args(stacks: &Vec<Stack>) -> (args: Vec<String>)
    ensures
        strictly_sorted(text_views(args@)),
        forall|arg: Seq<char>|
            text_views(args@).contains(arg) <==> in_use(stacks@, ArgList::Build, arg),
{
    list_common_args(stacks, ArgList::Build)
}

/// Reads a stack. The user needs level `Read` on it.
pub fn get_stack(
    found: Option<Stack>,
    user: &User,
    assignments: &Vec<PermissionLevel>,
) -> (outcome: Result<Stack, CoreError>)
    ensures
        outcome == checked(found, user.admin, assignments@, PermissionLevel::Read),
{
    get_check_permissions(found, user, assignments, PermissionLevel::Read)
}

/// The names of a stack's services as the cache holds them; none for a
/// stack without an entry. The user needs level `Read` on the stack.
pub fn list_stack_services(
    cache: &StatusCache,
    found: Option<Stack>,
    user: &User,
    assignments: &Vec<PermissionLevel>,
) -> (outcome: Result<Vec<String>, CoreError>)
    requires
        cache.wf(),
    ensures
        match checked(found, user.admin, assignments@, PermissionLevel::Read) {
            Ok(stack) => outcome matches Ok(services) && text_views(services@) == snapshot_of(
                cache@,
                stack.id@,
            ).curr.services,
            Err(error) => outcome matches Err(refusal) && refusal == error,
        },
{
    match get_stack(found, user, assignments) {
        Ok(stack) => Ok(cache.get_or_default(stack.id.as_str()).curr.services),
        Err(error) => Err(error),
    }
}

/// The action flags of a stack; all clear for a stack without a record.
/// The user needs level `Read` on the stack. Nothing is acquired.
pub fn get_stack_action_state(
    states: &ActionStates,
    found: Option<Stack>,
    user: &User,
    assignments: &Vec<PermissionLevel>,
) -> (outcome: Result<StackActionState, CoreError>)
    requires
        states.wf(),
    ensures
        match checked(found, user.admin, assignments@, PermissionLevel::Read) {
            Ok(stack) => outcome == Ok::<StackActionState, CoreError>(
                record_of(states@, stack.id@),
            ),
            Err(error) => outcome == Err::<StackActionState, CoreError>(error),
        },
{
    match get_stack(found, user, assignments) {
        Ok(stack) => match states.get(stack.id.as_str()) {
            Some(state) => Ok(state),
            None => Ok(StackActionState::new()),
        },
        Err(error) => Err(error),
    }
}

/// Where the log of one of a stack's services is to be asked for.
#[derive(Clone, Debug, PartialEq, Eq)]
pub struct ServiceLogTarget {
    /// The server whose agent holds the log.
    pub server_id: String,
    /// The compose project of the stack.
    pub project: String,
}

/// Decides where the log of one of a stack's services is to be asked
/// for. The user needs level `Read` on the stack, though the request
/// reaches the stack's server, and the server has to be reachable.
pub fn get_stack_service_log_target(
    found: Option<Stack>,
    user: &User,
    assignments: &Vec<PermissionLevel>,
    server: Option<(Server, ServerState)>,
) -> (outcome: Result<ServiceLogTarget, CoreError>)
    ensures
        match stack_and_server(
            found,
            user.admin,
            assignments@,
            PermissionLevel::Read,
            server,
            true,
        ) {
            Ok((stack, server)) => outcome matches Ok(target) && target.server_id@ == server.id@
                && target.project@ == stack.project(),
            Err(error) => outcome matches Err(refusal) && refusal == error,
        },
{
    match get_stack_and_server(found, user, assignments, PermissionLevel::Read, server, true) {
        Ok((stack, server)) => Ok(
            ServiceLogTarget { server_id: server.id, project: stack.project_name() },
        ),
        Err(error) => Err(error),
    }
}

} // verus!
