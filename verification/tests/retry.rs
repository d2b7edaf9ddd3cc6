use etcd_client::error::Error;
use etcd_client::failover::{RetryConfig, RetryPolicy};
use etcd_client::retry::{RetryRun, RetryStep};
use etcd_client::status::{Cause, Code, IoErrorKind, Status};
use std::time::Duration;

fn down() -> Error {
    Error::GRpcStatus(Status::new(Code::Unavailable, "down"))
}

fn refused() -> Error {
    let mut status = Status::new(Code::Unavailable, "refused");
    status.causes = vec![Cause::Io(IoErrorKind::ConnectionRefused)];
    Error::GRpcStatus(status)
}

fn stale_token() -> Error {
    Error::GRpcStatus(Status::new(Code::Unauthenticated, "invalid auth token"))
}

fn fails(run: &mut RetryRun, e: Error) -> RetryStep<u8> {
    run.on_result(Err(e))
}

#[test]
fn reads_fail_over_until_the_budget_is_spent() {
    let mut run = RetryRun::start(RetryPolicy::Repeatable, false, 3);
    assert!(matches!(fails(&mut run, down()), RetryStep::Attempt));
    assert_eq!(run.attempt, 1);
    assert!(matches!(fails(&mut run, down()), RetryStep::Attempt));
    assert_eq!(run.attempt, 2);
    match fails(&mut run, down()) {
        RetryStep::Return(Err(Error::GRpcStatus(status))) => assert_eq!(status.message, "down"),
        other => panic!("unexpected {other:?}"),
    }
    assert_eq!(run.attempt, 2);
}

#[test]
fn no_budget_still_makes_one_attempt() {
    for budget in [0, 1] {
        let mut run = RetryRun::start(RetryPolicy::Repeatable, true, budget);
        assert_eq!(run.max, 1);
        assert!(matches!(fails(&mut run, down()), RetryStep::Return(Err(_))));
    }
}

#[test]
fn writes_stop_unless_they_were_never_applied() {
    let mut run = RetryRun::start(RetryPolicy::NonRepeatable, true, 9);
    assert!(matches!(fails(&mut run, refused()), RetryStep::Attempt));
    assert!(matches!(fails(&mut run, stale_token()), RetryStep::RefreshThenAttempt));
    assert!(matches!(fails(&mut run, down()), RetryStep::Return(Err(_))));
    assert_eq!(run.attempt, 2);
}

#[test]
fn stale_token_is_refreshed_only_with_credentials() {
    let mut run = RetryRun::start(RetryPolicy::Repeatable, false, 5);
    assert!(matches!(fails(&mut run, stale_token()), RetryStep::Return(Err(_))));
    assert_eq!(run.attempt, 0);
    let mut run = RetryRun::start(RetryPolicy::Repeatable, true, 2);
    assert!(matches!(fails(&mut run, stale_token()), RetryStep::RefreshThenAttempt));
    assert!(matches!(fails(&mut run, stale_token()), RetryStep::RefreshThenFail(_)));
}

#[test]
fn other_errors_end_the_run() {
    let mut run = RetryRun::start(RetryPolicy::Repeatable, true, 5);
    let e = Error::InvalidArgs("bad".to_string());
    assert!(matches!(fails(&mut run, e), RetryStep::Return(Err(Error::InvalidArgs(m))) if m == "bad"));
}

#[test]
fn success_ends_the_run_with_its_value() {
    let mut run = RetryRun::start(RetryPolicy::NonRepeatable, false, 5);
    assert!(matches!(fails(&mut run, refused()), RetryStep::Attempt));
    assert!(matches!(run.on_result(Ok(7u8)), RetryStep::Return(Ok(7))));
    assert_eq!(run.attempt, 1);
}

#[test]
fn pauses_follow_the_attempt_under_way() {
    let retry = RetryConfig::new(9, Duration::from_millis(25), 3, false, false);
    let mut run = RetryRun::start(RetryPolicy::Repeatable, false, 9);
    let mut pauses = Vec::new();
    for _ in 0..5 {
        pauses.push(run.pause(&retry).unwrap().as_millis());
        fails(&mut run, down());
    }
    assert_eq!(pauses, vec![0, 0, 25, 0, 25]);
}

#[test]
fn total_outage_ends_after_exactly_the_budget() {
    let mut run = RetryRun::start(RetryPolicy::Repeatable, true, 4);
    let mut attempts = 1;
    while matches!(fails(&mut run, down()), RetryStep::Attempt) {
        attempts += 1;
    }
    assert_eq!(attempts, 4);
}
