use etcd_client::error::Error;
use etcd_client::failover::{
    classify, count_without_one, initial_count, quorum_of, Decision, RetryConfig, RetryPolicy,
};
use etcd_client::status::{is_auth_token_error, is_not_sent, Cause, Code, IoErrorKind, Status};
use etcd_client::time::is_zero;
use std::error::Error as StdError;
use std::time::Duration;

fn err(code: Code, msg: &str) -> Error {
    Error::GRpcStatus(Status::new(code, msg))
}

fn err_from(code: Code, causes: Vec<Cause>) -> Error {
    let mut status = Status::new(code, "x");
    status.causes = causes;
    Error::GRpcStatus(status)
}

fn io_kind(kind: std::io::ErrorKind) -> IoErrorKind {
    match kind {
        std::io::ErrorKind::ConnectionRefused => IoErrorKind::ConnectionRefused,
        std::io::ErrorKind::ConnectionReset => IoErrorKind::ConnectionReset,
        _ => IoErrorKind::Other,
    }
}

/// The causes of a transport status, from the outermost to the innermost.
fn status_of(status: &tonic::Status) -> Status {
    let mut causes = Vec::new();
    let mut source: Option<&(dyn StdError + 'static)> = Some(status);
    while let Some(e) = source {
        if let Some(h2) = e.downcast_ref::<h2::Error>() {
            causes.push(Cause::Http2(h2.reason().map(u32::from)));
        } else if let Some(io) = e.downcast_ref::<std::io::Error>() {
            causes.push(Cause::Io(io_kind(io.kind())));
        } else {
            causes.push(Cause::Other);
        }
        source = e.source();
    }
    let mut r = Status::new(Code::Unavailable, status.message());
    r.causes = causes;
    r
}

#[test]
fn repeatable_retries_unavailable() {
    assert!(matches!(
        classify(&err(Code::Unavailable, "x"), RetryPolicy::Repeatable),
        Decision::Retry
    ));
}

#[test]
fn nonrepeatable_stops_on_bare_unavailable() {
    assert!(matches!(
        classify(&err(Code::Unavailable, "x"), RetryPolicy::NonRepeatable),
        Decision::Stop
    ));
}

#[test]
fn auth_token_error_refreshes() {
    assert!(matches!(
        classify(
            &err(Code::Unauthenticated, "etcdserver: invalid auth token"),
            RetryPolicy::Repeatable
        ),
        Decision::RefreshToken
    ));
}

#[test]
fn other_unauthenticated_stops() {
    assert!(matches!(
        classify(
            &err(Code::Unauthenticated, "permission denied"),
            RetryPolicy::Repeatable
        ),
        Decision::Stop
    ));
}

#[test]
fn auth_token_error_refreshes_regardless_of_code() {
    // Stale auth revision and empty user name arrive as InvalidArgument, not
    // Unauthenticated, yet both must still trigger a token refresh.
    for msg in [
        "etcdserver: revision of auth store is old",
        "etcdserver: user name is empty",
    ] {
        assert!(matches!(
            classify(&err(Code::InvalidArgument, msg), RetryPolicy::NonRepeatable),
            Decision::RefreshToken
        ));
    }
}

#[test]
fn timeout_fails_over_only_when_repeatable() {
    for code in [Code::DeadlineExceeded, Code::Cancelled] {
        assert!(matches!(
            classify(&err(code, "x"), RetryPolicy::Repeatable),
            Decision::Retry
        ));
        assert!(matches!(
            classify(&err(code, "x"), RetryPolicy::NonRepeatable),
            Decision::Stop
        ));
    }
}

#[test]
fn non_transient_and_non_grpc_stop() {
    for code in [Code::InvalidArgument, Code::NotFound, Code::AlreadyExists] {
        assert!(matches!(
            classify(&err(code, "x"), RetryPolicy::Repeatable),
            Decision::Stop
        ));
    }
    assert!(matches!(
        classify(&Error::EndpointsNotManaged, RetryPolicy::Repeatable),
        Decision::Stop
    ));
}

#[test]
fn refused_stream_is_not_sent() {
    let h2_err: h2::Error = h2::Reason::REFUSED_STREAM.into();
    let st = tonic::Status::from_error(Box::new(h2_err));
    assert!(is_not_sent(&status_of(&st)));
}

#[test]
fn connect_refused_is_proof_of_not_sent_but_reset_is_not() {
    let refused = tonic::Status::from_error(Box::new(std::io::Error::from(
        std::io::ErrorKind::ConnectionRefused,
    )));
    assert!(is_not_sent(&status_of(&refused)));
    let reset = tonic::Status::from_error(Box::new(std::io::Error::from(
        std::io::ErrorKind::ConnectionReset,
    )));
    assert!(!is_not_sent(&status_of(&reset)));
}

#[test]
fn backoff_paces_by_quorum() {
    let cfg = RetryConfig::new(10, Duration::from_millis(25), 3, true, true);
    assert_eq!(cfg.backoff(0).unwrap(), Duration::ZERO);
    assert_eq!(cfg.backoff(1).unwrap(), Duration::ZERO);
    assert_eq!(cfg.backoff(2).unwrap(), Duration::from_millis(25));
    assert_eq!(cfg.backoff(3).unwrap(), Duration::ZERO);
}

#[test]
fn single_endpoint_backs_off_every_retry() {
    // quorum is 1, so every attempt past the first pauses.
    let cfg = RetryConfig::new(5, Duration::from_millis(25), 1, false, false);
    assert_eq!(cfg.backoff(0).unwrap(), Duration::ZERO);
    assert_eq!(cfg.backoff(1).unwrap(), Duration::from_millis(25));
    assert_eq!(cfg.backoff(2).unwrap(), Duration::from_millis(25));
}

#[test]
fn reconnect_backoff_grows_then_caps() {
    let cfg = RetryConfig::new(10, Duration::from_millis(25), 1, true, true);
    assert_eq!(cfg.reconnect_backoff(0), Duration::from_millis(25));
    assert_eq!(cfg.reconnect_backoff(1), Duration::from_millis(50));
    assert_eq!(cfg.reconnect_backoff(2), Duration::from_millis(100));
    // The shift saturates at 8 and the result is capped at 5s.
    assert_eq!(cfg.reconnect_backoff(8), Duration::from_secs(5));
    assert_eq!(cfg.reconnect_backoff(100), Duration::from_secs(5));
}

#[test]
fn backoff_tracks_live_endpoint_count() {
    let cfg = RetryConfig::new(10, Duration::from_millis(25), 1, false, false);
    // Quorum of 1: every retry pauses.
    assert_eq!(cfg.backoff(1).unwrap(), Duration::from_millis(25));
    cfg.endpoint_added();
    cfg.endpoint_added();
    // Quorum of 2: the odd attempts sweep, the even ones pause.
    assert_eq!(cfg.backoff(1).unwrap(), Duration::ZERO);
    assert_eq!(cfg.backoff(2).unwrap(), Duration::from_millis(25));
    cfg.endpoint_removed();
    cfg.endpoint_removed();
    // Clamped at one, so the pacing is back to pausing on every retry.
    cfg.endpoint_removed();
    assert_eq!(cfg.backoff(1).unwrap(), Duration::from_millis(25));
}

#[test]
fn endpoint_count_is_shared_across_clones() {
    let cfg = RetryConfig::new(10, Duration::from_millis(25), 1, false, false);
    let clone = cfg.clone();
    cfg.endpoint_added();
    cfg.endpoint_added();
    assert_eq!(clone.backoff(1).unwrap(), Duration::ZERO);
}

#[test]
fn disabled_config_is_single_attempt() {
    assert_eq!(RetryConfig::disabled().max_attempts, 1);
}

#[test]
fn disabled_config_has_default_wait_and_no_reconnect() {
    let cfg = RetryConfig::disabled();
    assert_eq!(cfg.backoff_wait, Duration::from_millis(25));
    assert!(!cfg.watch_reconnect);
    assert!(!cfg.lease_reconnect);
    assert_eq!(cfg.live_endpoints(), 1);
}

#[test]
fn no_endpoints_count_as_one() {
    assert_eq!(initial_count(0), 1);
    assert_eq!(initial_count(7), 7);
    let cfg = RetryConfig::new(3, Duration::from_millis(1), 0, false, false);
    assert_eq!(cfg.live_endpoints(), 1);
}

#[test]
fn quorum_is_a_majority() {
    assert_eq!(quorum_of(0), 1);
    assert_eq!(quorum_of(1), 1);
    assert_eq!(quorum_of(2), 2);
    assert_eq!(quorum_of(3), 2);
    assert_eq!(quorum_of(4), 3);
    assert_eq!(quorum_of(5), 3);
}

#[test]
fn one_pause_in_every_quorum_of_retries() {
    let cfg = RetryConfig::new(10, Duration::from_millis(25), 5, false, false);
    for first in 1..20u32 {
        let pauses = (first..first + 3)
            .filter(|n| cfg.backoff(*n).unwrap() == Duration::from_millis(25))
            .count();
        assert_eq!(pauses, 1);
    }
    assert_eq!(cfg.backoff_at(3, 5), Duration::from_millis(25));
    assert_eq!(cfg.backoff_at(4, 5), Duration::ZERO);
}

#[test]
fn endpoint_count_stays_at_least_one() {
    assert_eq!(count_without_one(3), Some(2));
    assert_eq!(count_without_one(2), Some(1));
    assert_eq!(count_without_one(1), None);
    assert_eq!(count_without_one(0), None);
}

#[test]
fn reconnect_backoff_never_shrinks_and_never_overflows() {
    let cfg = RetryConfig::new(10, Duration::from_millis(7), 1, true, true);
    let mut last = Duration::ZERO;
    for attempt in 0..40u32 {
        let wait = cfg.reconnect_backoff(attempt);
        assert!(wait >= last);
        assert!(wait <= Duration::from_secs(5));
        last = wait;
    }
    assert_eq!(cfg.reconnect_backoff(7), Duration::from_millis(896));
    assert_eq!(cfg.reconnect_backoff(8), Duration::from_millis(1792));
    assert_eq!(cfg.reconnect_backoff(u32::MAX), Duration::from_millis(1792));
    let long = RetryConfig::new(10, Duration::MAX, 1, true, true);
    assert_eq!(long.reconnect_backoff(3), Duration::from_secs(5));
}

#[test]
fn writes_are_retried_only_on_proof_of_not_sent() {
    let policy = RetryPolicy::NonRepeatable;
    for kind in [
        IoErrorKind::ConnectionRefused,
        IoErrorKind::HostUnreachable,
        IoErrorKind::NetworkUnreachable,
        IoErrorKind::AddrNotAvailable,
    ] {
        let e = err_from(Code::Unavailable, vec![Cause::Other, Cause::Io(kind)]);
        assert_eq!(classify(&e, policy), Decision::Retry);
        // The same causes prove nothing under another code.
        let e = err_from(Code::Unknown, vec![Cause::Io(kind)]);
        assert_eq!(classify(&e, policy), Decision::Stop);
    }
    for kind in [
        IoErrorKind::ConnectionReset,
        IoErrorKind::ConnectionAborted,
        IoErrorKind::NotConnected,
        IoErrorKind::BrokenPipe,
        IoErrorKind::TimedOut,
        IoErrorKind::UnexpectedEof,
        IoErrorKind::Other,
    ] {
        let e = err_from(Code::Unavailable, vec![Cause::Io(kind)]);
        assert_eq!(classify(&e, policy), Decision::Stop);
    }
    let refused = err_from(Code::Unavailable, vec![Cause::Http2(Some(7))]);
    assert_eq!(classify(&refused, policy), Decision::Retry);
    let cancelled = err_from(Code::Unavailable, vec![Cause::Http2(Some(8)), Cause::Http2(None)]);
    assert_eq!(classify(&cancelled, policy), Decision::Stop);
}

#[test]
fn token_messages_are_found_anywhere_in_the_text() {
    assert!(is_auth_token_error(&Status::new(
        Code::Unknown,
        "rpc error: etcdserver: invalid auth token (again)"
    )));
    assert!(!is_auth_token_error(&Status::new(Code::Unknown, "invalid auth")));
    assert!(!is_auth_token_error(&Status::new(Code::Unknown, "")));
}

#[test]
fn zero_durations_are_told_apart() {
    assert!(is_zero(Duration::ZERO));
    assert!(!is_zero(Duration::from_nanos(1)));
}

#[test]
fn an_added_endpoint_moves_the_pauses() {
    let cfg = RetryConfig::new(10, Duration::from_millis(25), 3, false, false);
    let pauses = |cfg: &RetryConfig| {
        (0..7u32)
            .filter(|n| !is_zero(cfg.backoff(*n).unwrap()))
            .collect::<Vec<u32>>()
    };
    assert_eq!(pauses(&cfg), vec![2, 4, 6]);
    cfg.endpoint_added();
    assert_eq!(cfg.live_endpoints(), 4);
    assert_eq!(pauses(&cfg), vec![3, 6]);
    assert_eq!(cfg.max_attempts, 10);
}
