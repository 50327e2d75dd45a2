use stack_control::update::{all_logs_success, Log, Operation, Update, UpdateStatus};

#[test]
fn simple_log_is_successful() {
    let log = Log::simple("Pull", String::from("done"), 42);
    assert_eq!(log.stage, "Pull");
    assert_eq!(log.stdout, "done");
    assert_eq!(log.stderr, "");
    assert_eq!(log.command, "");
    assert!(log.success);
    assert_eq!(log.start_ts, 42);
    assert_eq!(log.end_ts, 42);
}

#[test]
fn error_log_is_failed() {
    let log = Log::error("Pull", String::from("boom"), 7);
    assert_eq!(log.stage, "Pull");
    assert_eq!(log.stdout, "");
    assert_eq!(log.stderr, "boom");
    assert!(!log.success);
    assert_eq!(log.start_ts, 7);
    assert_eq!(log.end_ts, 7);
    assert_eq!(log.duplicate(), log);
}

#[test]
fn new_update_is_in_progress() {
    let update = Update::new(Operation::StopStack, "stack-1", "user-1", 100);
    assert_eq!(update.operation(), Operation::StopStack);
    assert_eq!(update.target(), "stack-1");
    assert_eq!(update.operator(), "user-1");
    assert_eq!(update.start_ts(), 100);
    assert_eq!(update.end_ts(), None);
    assert!(!update.success());
    assert_eq!(update.status(), UpdateStatus::InProgress);
    assert!(update.logs().is_empty());
    assert!(!update.is_finalized());
}

#[test]
fn finalize_marks_success_when_every_log_succeeded() {
    let mut update = Update::new(Operation::StartStack, "s", "u", 1);
    assert!(update.push_log(Log::simple("a", String::from("x"), 2)));
    assert!(update.push_log(Log::simple("b", String::from("y"), 3)));
    update.finalize(9);
    assert!(update.is_finalized());
    assert_eq!(update.status(), UpdateStatus::Complete);
    assert_eq!(update.end_ts(), Some(9));
    assert!(update.success());
    assert_eq!(update.logs().len(), 2);
    assert_eq!(update.logs()[0].stage, "a");
    assert_eq!(update.logs()[1].stage, "b");
}

#[test]
fn finalize_marks_failure_when_a_log_failed() {
    let mut update = Update::new(Operation::StartStack, "s", "u", 1);
    update.push_log(Log::simple("a", String::from("x"), 2));
    update.push_log(Log::error("b", String::from("y"), 3));
    update.push_log(Log::simple("c", String::from("z"), 4));
    update.finalize(9);
    assert!(!update.success());
    assert_eq!(update.end_ts(), Some(9));
}

#[test]
fn finalize_without_logs_is_success() {
    let mut update = Update::new(Operation::PauseStack, "s", "u", 1);
    update.finalize(2);
    assert!(update.success());
}

#[test]
fn finalized_update_is_fixed() {
    let mut update = Update::new(Operation::StartStack, "s", "u", 1);
    update.push_log(Log::simple("a", String::from("x"), 2));
    update.finalize(9);
    assert!(!update.push_log(Log::error("late", String::from("no"), 10)));
    update.finalize(11);
    assert_eq!(update.logs().len(), 1);
    assert_eq!(update.end_ts(), Some(9));
    assert!(update.success());
}

#[test]
fn duplicate_copies_every_part() {
    let mut update = Update::new(Operation::DestroyStack, "s", "u", 1);
    update.push_log(Log::error("a", String::from("x"), 2));
    let copy = update.duplicate();
    assert_eq!(copy.operation(), Operation::DestroyStack);
    assert_eq!(copy.target(), "s");
    assert_eq!(copy.operator(), "u");
    assert_eq!(copy.start_ts(), 1);
    assert_eq!(copy.end_ts(), None);
    assert_eq!(copy.status(), UpdateStatus::InProgress);
    assert_eq!(copy.logs(), update.logs());
    update.finalize(3);
    assert!(!copy.is_finalized());
}

#[test]
fn all_logs_success_over_lists() {
    assert!(all_logs_success(&vec![]));
    assert!(all_logs_success(&vec![Log::simple("a", String::new(), 0)]));
    assert!(!all_logs_success(&vec![
        Log::simple("a", String::new(), 0),
        Log::error("b", String::new(), 0)
    ]));
}
