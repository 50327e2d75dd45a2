use stack_control::command::{
    build_command, format_signed, format_unsigned, maybe_remove_orphans, maybe_service,
    maybe_timeout,
};
use stack_control::execute::{
    DestroyStack, ExecuteCompose, PauseStack, RestartStack, StartStack, StopStack, UnpauseStack,
};

#[test]
fn stop_with_timeout_and_service() {
    let service = Some(String::from("myservice"));
    assert_eq!(StopStack::command(&service, Some(30)), "stop --timeout 30 myservice");
}

#[test]
fn destroy_with_remove_orphans_only() {
    assert_eq!(DestroyStack::command(&None, (None, true)), "down --remove-orphans");
}

#[test]
fn destroy_with_every_modifier_keeps_the_order() {
    let service = Some(String::from("web"));
    assert_eq!(
        DestroyStack::command(&service, (Some(5), true)),
        "down --timeout 5 --remove-orphans web"
    );
}

#[test]
fn destroy_without_modifiers() {
    assert_eq!(DestroyStack::command(&None, (None, false)), "down");
}

#[test]
fn stop_without_timeout() {
    assert_eq!(StopStack::command(&None, None), "stop");
    let service = Some(String::from("db"));
    assert_eq!(StopStack::command(&service, None), "stop db");
}

#[test]
fn plain_actions_with_and_without_service() {
    let service = Some(String::from("api"));
    assert_eq!(StartStack::command(&None, ()), "start");
    assert_eq!(StartStack::command(&service, ()), "start api");
    assert_eq!(RestartStack::command(&None, ()), "restart");
    assert_eq!(RestartStack::command(&service, ()), "restart api");
    assert_eq!(PauseStack::command(&None, ()), "pause");
    assert_eq!(PauseStack::command(&service, ()), "pause api");
    assert_eq!(UnpauseStack::command(&None, ()), "unpause");
    assert_eq!(UnpauseStack::command(&service, ()), "unpause api");
}

#[test]
fn timeout_modifier() {
    assert_eq!(maybe_timeout(None), "");
    assert_eq!(maybe_timeout(Some(30)), " --timeout 30");
    assert_eq!(maybe_timeout(Some(0)), " --timeout 0");
    assert_eq!(maybe_timeout(Some(-5)), " --timeout -5");
    assert_eq!(maybe_timeout(Some(i32::MAX)), " --timeout 2147483647");
    assert_eq!(maybe_timeout(Some(i32::MIN)), " --timeout -2147483648");
}

#[test]
fn orphans_and_service_modifiers() {
    assert_eq!(maybe_remove_orphans(true), " --remove-orphans");
    assert_eq!(maybe_remove_orphans(false), "");
    assert_eq!(maybe_service(&None), "");
    assert_eq!(maybe_service(&Some(String::from("x"))), " x");
    assert_eq!(maybe_service(&Some(String::new())), " ");
}

#[test]
fn numbers_in_base_ten() {
    assert_eq!(format_unsigned(0), "0");
    assert_eq!(format_unsigned(7), "7");
    assert_eq!(format_unsigned(10), "10");
    assert_eq!(format_unsigned(1905), "1905");
    assert_eq!(format_unsigned(4294967295), "4294967295");
    assert_eq!(format_unsigned(u64::MAX), "18446744073709551615");
    assert_eq!(format_signed(0), "0");
    assert_eq!(format_signed(-1), "-1");
    assert_eq!(format_signed(120), "120");
    assert_eq!(format_signed(-2147483647), "-2147483647");
}

#[test]
fn numbers_agree_with_the_standard_rendering() {
    for n in [0u64, 1, 9, 10, 11, 99, 100, 101, 999, 1000, 65535, 4294967295, u64::MAX] {
        assert_eq!(format_unsigned(n), format!("{n}"));
    }
    for n in [i32::MIN, -1000, -10, -9, -1, 0, 1, 9, 10, 1000, i32::MAX] {
        assert_eq!(format_signed(n), format!("{n}"));
    }
}

#[test]
fn command_from_parts() {
    assert_eq!(build_command("up", Some(1), false, &None), "up --timeout 1");
    assert_eq!(
        build_command("up", None, true, &Some(String::from("s"))),
        "up --remove-orphans s"
    );
}
