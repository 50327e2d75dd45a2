use stack_control::action_state::{ActionFlag, Busy, StackActionState};
use stack_control::coordinator::ActionStates;

fn idle() -> StackActionState {
    StackActionState::new()
}

#[test]
fn new_record_has_every_flag_clear() {
    let state = StackActionState::new();
    assert!(!state.busy());
    assert_eq!(state.busy_flag(), None);
    assert_eq!(state, StackActionState::default());
    for flag in [
        ActionFlag::Pulling,
        ActionFlag::Deploying,
        ActionFlag::Starting,
        ActionFlag::Restarting,
        ActionFlag::Pausing,
        ActionFlag::Unpausing,
        ActionFlag::Stopping,
        ActionFlag::Destroying,
    ] {
        assert!(!state.get(flag));
    }
}

#[test]
fn set_changes_one_flag_only() {
    let mut state = StackActionState::new();
    state.set(ActionFlag::Stopping, true);
    assert!(state.stopping);
    assert!(state.get(ActionFlag::Stopping));
    assert!(!state.get(ActionFlag::Starting));
    assert!(state.busy());
    assert_eq!(state.busy_flag(), Some(ActionFlag::Stopping));
    state.set(ActionFlag::Stopping, false);
    assert_eq!(state, idle());
}

#[test]
fn busy_flag_is_the_first_in_declaration_order() {
    let mut state = StackActionState::new();
    state.set(ActionFlag::Destroying, true);
    state.set(ActionFlag::Deploying, true);
    assert_eq!(state.busy_flag(), Some(ActionFlag::Deploying));
}

#[test]
fn second_update_on_same_stack_is_busy() {
    let mut states = ActionStates::new();
    let first = states.update("stack-1", ActionFlag::Stopping);
    let guard = first.expect("the first update is granted");
    assert_eq!(guard.stack_id(), "stack-1");
    assert_eq!(guard.held_flag(), ActionFlag::Stopping);
    let second = states.update("stack-1", ActionFlag::Stopping);
    assert_eq!(second.err(), Some(Busy { flag: ActionFlag::Stopping }));
    let third = states.update("stack-1", ActionFlag::Starting);
    assert_eq!(third.err(), Some(Busy { flag: ActionFlag::Stopping }));
    assert!(states.get("stack-1").unwrap().stopping);
    states.release(guard);
    assert_eq!(states.get_or_insert_default("stack-1"), idle());
}

#[test]
fn release_allows_the_next_update() {
    let mut states = ActionStates::new();
    let guard = states.update("s", ActionFlag::Destroying).unwrap();
    states.release(guard);
    let again = states.update("s", ActionFlag::Starting);
    assert!(again.is_ok());
    assert!(states.get("s").unwrap().starting);
    assert!(!states.get("s").unwrap().destroying);
}

#[test]
fn stacks_do_not_contend() {
    let mut states = ActionStates::new();
    let a = states.update("a", ActionFlag::Starting).unwrap();
    let b = states.update("b", ActionFlag::Stopping).unwrap();
    assert!(states.get("a").unwrap().starting);
    assert!(states.get("b").unwrap().stopping);
    states.release(a);
    assert_eq!(states.get("a"), Some(idle()));
    assert!(states.get("b").unwrap().stopping);
    states.release(b);
    assert_eq!(states.get("b"), Some(idle()));
}

#[test]
fn records_are_created_on_first_access() {
    let mut states = ActionStates::new();
    assert_eq!(states.get("x"), None);
    assert_eq!(states.get_or_insert_default("x"), idle());
    assert_eq!(states.get("x"), Some(idle()));
    assert_eq!(states.get("y"), None);
}

#[test]
fn refused_update_still_leaves_a_record() {
    let mut states = ActionStates::new();
    let guard = states.update("x", ActionFlag::Pausing).unwrap();
    assert!(states.update("x", ActionFlag::Unpausing).is_err());
    assert_eq!(states.get("x").unwrap().busy_flag(), Some(ActionFlag::Pausing));
    states.release(guard);
}
