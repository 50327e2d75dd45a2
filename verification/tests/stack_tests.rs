use stack_control::error::CoreError;
use stack_control::permission::{PermissionLevel, User};
use stack_control::stack::{get_stack_and_server, Server, ServerState, Stack, StackConfig};

fn user(admin: bool) -> User {
    User { id: String::from("u1"), username: String::from("ann"), admin }
}

fn stack(server_id: &str, project_name: &str) -> Stack {
    Stack {
        id: String::from("stack-1"),
        name: String::from("shop"),
        config: StackConfig {
            server_id: server_id.to_string(),
            project_name: project_name.to_string(),
            git_provider: String::new(),
            repo: String::new(),
            extra_args: vec![],
            build_extra_args: vec![],
        },
    }
}

fn server(id: &str, state: ServerState) -> Option<(Server, ServerState)> {
    Some((Server { id: id.to_string(), name: String::from("host") }, state))
}

#[test]
fn project_name_falls_back_to_the_stack_name() {
    assert_eq!(stack("s", "").project_name(), "shop");
    assert_eq!(stack("s", "custom").project_name(), "custom");
}

#[test]
fn resolves_stack_with_its_server() {
    let outcome = get_stack_and_server(
        Some(stack("server-1", "")),
        &user(false),
        &vec![PermissionLevel::Execute],
        PermissionLevel::Execute,
        server("server-1", ServerState::Reachable),
        true,
    );
    let (stack, server) = outcome.unwrap();
    assert_eq!(stack.id, "stack-1");
    assert_eq!(server.id, "server-1");
}

#[test]
fn permission_is_checked_before_the_server() {
    let outcome = get_stack_and_server(
        Some(stack("", "")),
        &user(false),
        &vec![PermissionLevel::Read],
        PermissionLevel::Execute,
        None,
        true,
    );
    assert_eq!(outcome.err(), Some(CoreError::Unauthorized));
}

#[test]
fn absent_stack_comes_before_everything() {
    let outcome = get_stack_and_server(
        None,
        &user(false),
        &vec![],
        PermissionLevel::Execute,
        server("server-1", ServerState::Reachable),
        true,
    );
    assert_eq!(outcome.err(), Some(CoreError::NotFound));
}

#[test]
fn stack_without_server_is_not_found() {
    let outcome = get_stack_and_server(
        Some(stack("", "")),
        &user(true),
        &vec![],
        PermissionLevel::Execute,
        server("server-1", ServerState::Reachable),
        true,
    );
    assert_eq!(outcome.err(), Some(CoreError::NotFound));
}

#[test]
fn missing_or_other_server_is_not_found() {
    let outcome = get_stack_and_server(
        Some(stack("server-1", "")),
        &user(true),
        &vec![],
        PermissionLevel::Read,
        None,
        false,
    );
    assert_eq!(outcome.err(), Some(CoreError::NotFound));
    let outcome = get_stack_and_server(
        Some(stack("server-1", "")),
        &user(true),
        &vec![],
        PermissionLevel::Read,
        server("server-2", ServerState::Reachable),
        false,
    );
    assert_eq!(outcome.err(), Some(CoreError::NotFound));
}

#[test]
fn unreachable_server_blocks_only_when_asked() {
    for state in [ServerState::NotOk, ServerState::Disabled] {
        let blocked = get_stack_and_server(
            Some(stack("server-1", "")),
            &user(true),
            &vec![],
            PermissionLevel::Read,
            server("server-1", state),
            true,
        );
        assert_eq!(blocked.err(), Some(CoreError::RemoteUnavailable));
        let allowed = get_stack_and_server(
            Some(stack("server-1", "")),
            &user(true),
            &vec![],
            PermissionLevel::Read,
            server("server-1", state),
            false,
        );
        assert!(allowed.is_ok());
    }
}

#[test]
fn server_is_not_checked_against_the_user() {
    let outcome = get_stack_and_server(
        Some(stack("server-1", "")),
        &user(false),
        &vec![PermissionLevel::Read],
        PermissionLevel::Read,
        server("server-1", ServerState::Reachable),
        true,
    );
    assert!(outcome.is_ok());
}
