use stack_control::action_state::{ActionFlag, StackActionState};
use stack_control::cache::{StackState, StackStatus, StatusCache};
use stack_control::coordinator::ActionStates;
use stack_control::error::CoreError;
use stack_control::permission::{PermissionLevel, User};
use stack_control::read::{
    get_stack, get_stack_action_state, get_stack_service_log_target, insert_all_sorted,
    insert_sorted, list_common_args, list_common_stack_build_extra_args,
    list_common_stack_extra_args, list_stack_services, ArgList, ServiceLogTarget,
};
use stack_control::stack::{Server, ServerState, Stack, StackConfig};

fn user(admin: bool) -> User {
    User { id: String::from("u1"), username: String::from("ann"), admin }
}

fn reader() -> Vec<PermissionLevel> {
    vec![PermissionLevel::Read]
}

fn stack(id: &str, extra_args: &[&str], build_extra_args: &[&str]) -> Stack {
    Stack {
        id: id.to_string(),
        name: id.to_string(),
        config: StackConfig {
            server_id: String::from("server-1"),
            project_name: String::new(),
            git_provider: String::new(),
            repo: String::new(),
            extra_args: extra_args.iter().map(|s| s.to_string()).collect(),
            build_extra_args: build_extra_args.iter().map(|s| s.to_string()).collect(),
        },
    }
}

#[test]
fn extra_args_are_unique_and_sorted() {
    let stacks = vec![
        stack("a", &["--wait", "--build"], &["--no-cache"]),
        stack("b", &["--build", "--remove-orphans"], &[]),
        stack("c", &[], &["--pull", "--no-cache"]),
    ];
    assert_eq!(
        list_common_stack_extra_args(&stacks),
        vec!["--build", "--remove-orphans", "--wait"]
    );
    assert_eq!(list_common_stack_build_extra_args(&stacks), vec!["--no-cache", "--pull"]);
    assert_eq!(list_common_args(&stacks, ArgList::Deploy), list_common_stack_extra_args(&stacks));
    assert_eq!(
        list_common_args(&stacks, ArgList::Build),
        list_common_stack_build_extra_args(&stacks)
    );
}

#[test]
fn extra_args_of_no_stacks() {
    assert!(list_common_stack_extra_args(&vec![]).is_empty());
    assert!(list_common_stack_build_extra_args(&vec![stack("a", &["x"], &[])]).is_empty());
}

#[test]
fn extra_args_agree_with_sort_and_dedup() {
    let stacks = vec![
        stack("a", &["z", "a", "m", "a", "Z", "", "10", "9"], &[]),
        stack("b", &["m", "é", "e", "-x", "--x"], &[]),
    ];
    let mut expected: Vec<String> = stacks
        .iter()
        .flat_map(|stack| stack.config.extra_args.iter().cloned())
        .collect();
    expected.sort();
    expected.dedup();
    assert_eq!(list_common_stack_extra_args(&stacks), expected);
}

#[test]
fn insert_keeps_order_and_uniqueness() {
    let mut list: Vec<String> = vec![];
    insert_sorted(&mut list, "m");
    insert_sorted(&mut list, "a");
    insert_sorted(&mut list, "z");
    insert_sorted(&mut list, "m");
    insert_sorted(&mut list, "b");
    assert_eq!(list, vec!["a", "b", "m", "z"]);
    insert_all_sorted(&mut list, &vec![String::from("c"), String::from("a"), String::from("zz")]);
    assert_eq!(list, vec!["a", "b", "c", "m", "z", "zz"]);
}

#[test]
fn services_come_from_the_current_reading() {
    let mut cache = StatusCache::new();
    cache.record(
        "server-1",
        "a",
        StackStatus { state: StackState::Running, services: vec![String::from("old")] },
    );
    cache.record(
        "server-1",
        "a",
        StackStatus {
            state: StackState::Running,
            services: vec![String::from("web"), String::from("db")],
        },
    );
    assert_eq!(
        list_stack_services(&cache, Some(stack("a", &[], &[])), &user(false), &reader()),
        Ok(vec![String::from("web"), String::from("db")])
    );
    assert_eq!(
        list_stack_services(&cache, Some(stack("b", &[], &[])), &user(false), &reader()),
        Ok(vec![])
    );
}

#[test]
fn reads_need_level_read() {
    let cache = StatusCache::new();
    let states = ActionStates::new();
    assert_eq!(
        get_stack(Some(stack("a", &[], &[])), &user(false), &vec![]),
        Err(CoreError::Unauthorized)
    );
    assert_eq!(get_stack(None, &user(true), &reader()), Err(CoreError::NotFound));
    assert_eq!(
        get_stack(Some(stack("a", &[], &[])), &user(false), &reader()),
        Ok(stack("a", &[], &[]))
    );
    assert_eq!(
        get_stack(Some(stack("a", &[], &[])), &user(true), &vec![]),
        Ok(stack("a", &[], &[]))
    );
    assert_eq!(
        list_stack_services(&cache, Some(stack("a", &[], &[])), &user(false), &vec![]),
        Err(CoreError::Unauthorized)
    );
    assert_eq!(list_stack_services(&cache, None, &user(true), &vec![]), Err(CoreError::NotFound));
    assert_eq!(
        get_stack_action_state(&states, Some(stack("a", &[], &[])), &user(false), &vec![]),
        Err(CoreError::Unauthorized)
    );
    assert_eq!(
        get_stack_action_state(&states, None, &user(false), &reader()),
        Err(CoreError::NotFound)
    );
}

#[test]
fn action_state_defaults_to_idle() {
    let mut states = ActionStates::new();
    let read = |states: &ActionStates| {
        get_stack_action_state(states, Some(stack("a", &[], &[])), &user(false), &reader())
    };
    assert_eq!(read(&states), Ok(StackActionState::new()));
    assert_eq!(states.get("a"), None);
    let guard = states.update("a", ActionFlag::Deploying).unwrap();
    let state = read(&states).unwrap();
    assert!(state.deploying);
    assert_eq!(state.busy_flag(), Some(ActionFlag::Deploying));
    states.release(guard);
    assert_eq!(read(&states), Ok(StackActionState::new()));
}

#[test]
fn service_log_is_asked_of_the_stacks_server() {
    let server = |state: ServerState| {
        Some((Server { id: String::from("server-1"), name: String::from("host") }, state))
    };
    assert_eq!(
        get_stack_service_log_target(
            Some(stack("a", &[], &[])),
            &user(false),
            &reader(),
            server(ServerState::Reachable)
        ),
        Ok(ServiceLogTarget { server_id: String::from("server-1"), project: String::from("a") })
    );
    assert_eq!(
        get_stack_service_log_target(
            Some(stack("a", &[], &[])),
            &user(false),
            &vec![],
            server(ServerState::Reachable)
        ),
        Err(CoreError::Unauthorized)
    );
    assert_eq!(
        get_stack_service_log_target(
            Some(stack("a", &[], &[])),
            &user(false),
            &reader(),
            server(ServerState::NotOk)
        ),
        Err(CoreError::RemoteUnavailable)
    );
    assert_eq!(
        get_stack_service_log_target(Some(stack("a", &[], &[])), &user(true), &vec![], None),
        Err(CoreError::NotFound)
    );
}
