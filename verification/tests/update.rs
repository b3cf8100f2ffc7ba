use stack_exec::text::{appended, join};
use stack_exec::update::{logs_succeeded, Log, Operation, Update, UpdateStatus};

fn update() -> Update {
    Update::new(Operation::DeployStack, "stack-1".to_string(), "alice".to_string(), 100)
}

#[test]
fn fresh_update_is_queued_and_empty() {
    let update = update();
    assert_eq!(update.id, "");
    assert_eq!(update.operation, Operation::DeployStack);
    assert_eq!(update.target, "stack-1");
    assert_eq!(update.operator, "alice");
    assert_eq!(update.start_ts, 100);
    assert_eq!(update.status, UpdateStatus::Queued);
    assert!(update.logs.is_empty());
    assert_eq!(update.end_ts, None);
    assert!(!update.success);
    assert!(!update.is_finalized());
}

#[test]
fn simple_log_is_a_success_on_stdout() {
    let log = Log::simple("Stage", "message".to_string(), 5);
    assert_eq!(
        log,
        Log {
            stage: "Stage".to_string(),
            command: String::new(),
            stdout: "message".to_string(),
            stderr: String::new(),
            success: true,
            start_ts: 5,
            end_ts: 5,
        }
    );
}

#[test]
fn error_log_is_a_failure_on_stderr() {
    let log = Log::error("Stage", "went wrong".to_string(), 6);
    assert_eq!(
        log,
        Log {
            stage: "Stage".to_string(),
            command: String::new(),
            stdout: String::new(),
            stderr: "went wrong".to_string(),
            success: false,
            start_ts: 6,
            end_ts: 6,
        }
    );
}

#[test]
fn logs_are_appended_in_order() {
    let mut update = update();
    update.push_simple_log("one", "1".to_string(), 1);
    update.push_error_log("two", "2".to_string(), 2);
    update.push_log(Log::simple("three", "3".to_string(), 3));
    update.extend_logs(vec![
        Log::simple("four", "4".to_string(), 4),
        Log::simple("five", "5".to_string(), 5),
    ]);
    let stages: Vec<&str> = update.logs.iter().map(|l| l.stage.as_str()).collect();
    assert_eq!(stages, vec!["one", "two", "three", "four", "five"]);
    assert_eq!(update.status, UpdateStatus::Queued);
    assert_eq!(update.logs[1], Log::error("two", "2".to_string(), 2));
}

#[test]
fn finalize_seals_with_the_outcome_of_the_logs() {
    let mut good = update();
    good.push_simple_log("one", "1".to_string(), 1);
    good.finalize(200);
    assert!(good.success);
    assert_eq!(good.status, UpdateStatus::Complete);
    assert_eq!(good.end_ts, Some(200));
    assert!(good.is_finalized());

    let mut bad = update();
    bad.push_simple_log("one", "1".to_string(), 1);
    bad.push_error_log("two", "2".to_string(), 2);
    bad.finalize(201);
    assert!(!bad.success);
    assert_eq!(bad.status, UpdateStatus::Complete);
    assert_eq!(bad.end_ts, Some(201));

    let mut empty = update();
    empty.finalize(202);
    assert!(empty.success);
}

#[test]
fn logs_succeeded_needs_every_entry() {
    assert!(logs_succeeded(&vec![]));
    assert!(logs_succeeded(&vec![Log::simple("a", String::new(), 0)]));
    assert!(!logs_succeeded(&vec![
        Log::simple("a", String::new(), 0),
        Log::error("b", String::new(), 0),
        Log::simple("c", String::new(), 0),
    ]));
}

#[test]
fn update_clone_is_equal() {
    let mut update = update();
    update.push_simple_log("one", "1".to_string(), 1);
    update.finalize(9);
    assert_eq!(update.clone(), update);
}

#[test]
fn join_puts_the_separator_between_parts() {
    assert_eq!(join(&vec![], ", "), "");
    assert_eq!(join(&vec!["web".to_string()], ", "), "web");
    assert_eq!(join(&vec!["web".to_string(), "db".to_string(), "cache".to_string()], ", "), "web, db, cache");
    assert_eq!(join(&vec![String::new(), String::new()], "-"), "-");
}

#[test]
fn appended_puts_tail_after_head() {
    assert_eq!(appended("head", "tail"), "headtail");
    assert_eq!(appended("", ""), "");
}
