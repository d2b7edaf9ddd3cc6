//! Which failed attempts are repeated, and how retries are paced.

use crate::error::Error;
use crate::failover::{
    classify, count_without_one, decision, initial_count, quorum_of, Decision, RetryConfig,
    RetryPolicy,
};
use crate::retry::RetryRun;
use crate::status::{
    is_auth_token_error, is_not_sent, not_sent, proves_not_sent, Cause, Code, IoErrorKind, Status,
};
use crate::text::occurs_at;
use crate::time::nanos;
use core::time::Duration;
use std::sync::atomic::AtomicUsize;
use vstd::arithmetic::power2::pow2;
use vstd::prelude::*;

verus! {

/// The text stands somewhere in the message.
pub open spec fn says(message: Seq<char>, text: Seq<char>) -> bool {
    exists|before: Seq<char>, after: Seq<char>| message == #[trigger] (before + text + after)
}

/// The server says that the auth token is invalid, that it is older than the auth
/// store, or that there is none.
pub open spec fn token_rejected(status: Status) -> bool {
    ||| says(status.message@, "invalid auth token"@)
    ||| says(status.message@, "revision of auth store is old"@)
    ||| says(status.message@, "user name is empty"@)
}

/// The status was caused by a refused stream, or by a connection that could not be
/// established.
pub open spec fn refused_or_unconnected(status: Status) -> bool {
    exists|i: int|
        0 <= i < status.causes@.len() && {
            let cause = #[trigger] status.causes@[i];
            ||| cause == Cause::Http2(Some(7))
            ||| cause == Cause::Io(IoErrorKind::ConnectionRefused)
            ||| cause == Cause::Io(IoErrorKind::HostUnreachable)
            ||| cause == Cause::Io(IoErrorKind::NetworkUnreachable)
            ||| cause == Cause::Io(IoErrorKind::AddrNotAvailable)
        }
}

/// A text stands in a message exactly if it occurs there at some position.
proof fn lemma_says(message: Seq<char>, text: Seq<char>)
    ensures
        says(message, text) <==> exists|at: int| #[trigger] occurs_at(message, text, at),
{
    if says(message, text) {
        let (before, after) = choose|before: Seq<char>, after: Seq<char>|
            message == #[trigger] (before + text + after);
        assert(message.subrange(before.len() as int, (before.len() + text.len()) as int) =~= text);
        assert(occurs_at(message, text, before.len() as int));
    }
    if exists|at: int| #[trigger] occurs_at(message, text, at) {
        let at = choose|at: int| #[trigger] occurs_at(message, text, at);
        let before = message.subrange(0, at);
        let after = message.subrange(at + text.len(), message.len() as int);
        assert(message =~= before + text + after);
    }
}

/// The token of a status is rejected exactly if its message says so in one of the
/// server's three ways.
pub proof fn law_token_error(status: Status, r: bool)
    requires
        call_ensures(is_auth_token_error, (&status,), r),
    ensures
        r <==> token_rejected(status),
{
    lemma_says(status.message@, "invalid auth token"@);
    lemma_says(status.message@, "revision of auth store is old"@);
    lemma_says(status.message@, "user name is empty"@);
}

/// A status proves that its request was not sent exactly by those causes.
proof fn lemma_not_sent(status: Status)
    ensures
        not_sent(status) <==> refused_or_unconnected(status),
{
    if not_sent(status) {
        let i = choose|i: int|
            0 <= i < status.causes@.len() && #[trigger] proves_not_sent(status.causes@[i]);
        assert(refused_or_unconnected(status));
    }
    if refused_or_unconnected(status) {
        let i = choose|i: int|
            0 <= i < status.causes@.len() && {
                let cause = #[trigger] status.causes@[i];
                ||| cause == Cause::Http2(Some(7))
                ||| cause == Cause::Io(IoErrorKind::ConnectionRefused)
                ||| cause == Cause::Io(IoErrorKind::HostUnreachable)
                ||| cause == Cause::Io(IoErrorKind::NetworkUnreachable)
                ||| cause == Cause::Io(IoErrorKind::AddrNotAvailable)
            };
        assert(proves_not_sent(status.causes@[i]));
    }
}

/// Only a refused stream or a connection that was never established proves that a
/// request was not sent; a reset, a timeout or any other cause does not.
pub proof fn law_not_sent(status: Status, r: bool)
    requires
        call_ensures(is_not_sent, (&status,), r),
    ensures
        r <==> refused_or_unconnected(status),
{
    lemma_not_sent(status);
}

/// A new status holds its code and its message, and no cause.
pub proof fn law_new_status(code: Code, message: &str, r: Status)
    requires
        call_ensures(Status::new, (code, message), r),
    ensures
        r.code == code,
        r.message@ == message@,
        r.causes@.len() == 0,
{
}

/// The reaction to a failed attempt, in terms of the attempt's error.
pub proof fn lemma_reaction(err: Error, policy: RetryPolicy)
    ensures
        decision(err, policy) == Decision::RefreshToken <==> (err matches Error::GRpcStatus(status)
            && token_rejected(status)),
        decision(err, policy) == Decision::Retry <==> (err matches Error::GRpcStatus(status)
            && !token_rejected(status) && match policy {
            RetryPolicy::Repeatable => status.code == Code::Unavailable || status.code
                == Code::DeadlineExceeded || status.code == Code::Cancelled,
            RetryPolicy::NonRepeatable => status.code == Code::Unavailable
                && refused_or_unconnected(status),
        }),
{
    if let Error::GRpcStatus(status) = err {
        lemma_says(status.message@, "invalid auth token"@);
        lemma_says(status.message@, "revision of auth store is old"@);
        lemma_says(status.message@, "user name is empty"@);
        lemma_not_sent(status);
    }
}

/// How a failed attempt is reacted to. A rejected token is refreshed. Otherwise an
/// idempotent RPC is repeated when its endpoint was unavailable, timed out or
/// cancelled, and a mutating one only when it was unavailable and provably not sent.
/// Nothing but a gRPC status is ever repeated.
pub proof fn law_reaction(err: Error, policy: RetryPolicy, r: Decision)
    requires
        call_ensures(classify, (&err, policy), r),
    ensures
        r == Decision::RefreshToken <==> (err matches Error::GRpcStatus(status)
            && token_rejected(status)),
        r == Decision::Retry <==> (err matches Error::GRpcStatus(status)
            && !token_rejected(status) && match policy {
            RetryPolicy::Repeatable => status.code == Code::Unavailable || status.code
                == Code::DeadlineExceeded || status.code == Code::Cancelled,
            RetryPolicy::NonRepeatable => status.code == Code::Unavailable
                && refused_or_unconnected(status),
        }),
{
    lemma_reaction(err, policy);
}

/// A majority of `n` endpoints, as a 32-bit count.
pub open spec fn majority(n: usize) -> int {
    (n / 2 + 1) % 0x1_0000_0000
}

/// `d` is the base wait before every retry whose number is a multiple of the majority
/// of `n` endpoints, and nothing before any other attempt.
pub open spec fn sweeps_then_pauses(wait: Duration, attempt: u32, n: usize, d: Duration) -> bool {
    if attempt > 0 && attempt as int % majority(n) == 0 {
        d == wait
    } else {
        nanos(d) == 0
    }
}

/// `r` is the pause before an attempt with `n` endpoints. There is none to tell only if
/// there are so many of them that the count of their majority is zero.
pub open spec fn paced(wait: Duration, attempt: u32, n: usize, r: Option<Duration>) -> bool {
    match r {
        Some(d) => (attempt == 0 || majority(n) != 0) && sweeps_then_pauses(wait, attempt, n, d),
        None => attempt > 0 && majority(n) == 0,
    }
}

/// Retries for `n` endpoints sweep a majority of them, then pause for the base wait.
pub proof fn law_backoff_sweeps_a_majority(cfg: RetryConfig, attempt: u32, n: usize, d: Duration)
    requires
        attempt == 0 || majority(n) != 0,
        call_ensures(RetryConfig::backoff_at, (&cfg, attempt, n), d),
    ensures
        sweeps_then_pauses(cfg.backoff_wait, attempt, n, d),
{
}

/// The backoff for any attempt and any number of endpoints whose majority can be counted
/// can be asked for.
pub proof fn law_backoff_can_be_asked_for(cfg: RetryConfig, attempt: u32, n: usize)
    requires
        attempt == 0 || majority(n) != 0,
    ensures
        call_requires(RetryConfig::backoff_at, (&cfg, attempt, n)),
{
}

/// Backoff is paced by the number of endpoints that was read as live.
pub proof fn law_backoff_follows_the_live_count(
    cfg: RetryConfig,
    attempt: u32,
    r: Option<Duration>,
) -> (n: usize)
    requires
        call_ensures(RetryConfig::backoff, (&cfg, attempt), r),
    ensures
        call_ensures(
            AtomicUsize::load,
            (&*cfg.endpoint_count, std::sync::atomic::Ordering::Relaxed),
            n,
        ),
        paced(cfg.backoff_wait, attempt, n, r),
{
    lemma_backoff_was_read(cfg, attempt, r)
}

/// The count that a backoff was paced by.
proof fn lemma_backoff_was_read(cfg: RetryConfig, attempt: u32, r: Option<Duration>) -> (n: usize)
    requires
        call_ensures(RetryConfig::backoff, (&cfg, attempt), r),
    ensures
        crate::failover::was_read(*cfg.endpoint_count, n),
        paced(cfg.backoff_wait, attempt, n, r),
{
    choose|n: usize| #[trigger]
        crate::failover::was_read(*cfg.endpoint_count, n) && crate::failover::backoff_for(
            cfg.backoff_wait,
            attempt as nat,
            n as nat,
            r,
        )
}

/// A run pauses before the attempt under way as the config's backoff for it says.
pub proof fn law_run_pauses_by_the_live_count(
    run: RetryRun,
    cfg: RetryConfig,
    r: Option<Duration>,
) -> (n: usize)
    requires
        call_ensures(RetryRun::pause, (&run, &cfg), r),
    ensures
        call_ensures(
            AtomicUsize::load,
            (&*cfg.endpoint_count, std::sync::atomic::Ordering::Relaxed),
            n,
        ),
        paced(cfg.backoff_wait, run.attempt, n, r),
{
    lemma_pause_was_read(run, cfg, r)
}

/// The count that a pause was paced by.
proof fn lemma_pause_was_read(run: RetryRun, cfg: RetryConfig, r: Option<Duration>) -> (n: usize)
    requires
        call_ensures(RetryRun::pause, (&run, &cfg), r),
    ensures
        crate::failover::was_read(*cfg.endpoint_count, n),
        paced(cfg.backoff_wait, run.attempt, n, r),
{
    choose|n: usize| #[trigger]
        crate::failover::was_read(*cfg.endpoint_count, n) && crate::failover::backoff_for(
            cfg.backoff_wait,
            run.attempt as nat,
            n as nat,
            r,
        )
}

/// The live count is what a load of the shared counter gives.
pub proof fn law_live_count_is_loaded(cfg: RetryConfig, n: usize)
    requires
        call_ensures(RetryConfig::live_endpoints, (&cfg,), n),
    ensures
        call_ensures(
            AtomicUsize::load,
            (&*cfg.endpoint_count, std::sync::atomic::Ordering::Relaxed),
            n,
        ),
{
}

/// An added endpoint adds one to the shared counter.
pub proof fn law_added_endpoint_is_counted(cfg: RetryConfig) -> (before: usize)
    requires
        call_ensures(RetryConfig::endpoint_added, (&cfg,), ()),
    ensures
        call_ensures(
            AtomicUsize::fetch_add,
            (&*cfg.endpoint_count, 1usize, std::sync::atomic::Ordering::Relaxed),
            before,
        ),
{
    choose|before: usize| #[trigger]
        call_ensures(
            AtomicUsize::fetch_add,
            (&*cfg.endpoint_count, 1usize, std::sync::atomic::Ordering::Relaxed),
            before,
        )
}

/// A removed endpoint updates the shared counter with [`count_without_one`].
pub proof fn law_removed_endpoint_is_counted(cfg: RetryConfig) -> (r: Result<usize, usize>)
    requires
        call_ensures(RetryConfig::endpoint_removed, (&cfg,), ()),
    ensures
        call_ensures(
            AtomicUsize::fetch_update,
            (
                &*cfg.endpoint_count,
                std::sync::atomic::Ordering::Relaxed,
                std::sync::atomic::Ordering::Relaxed,
                count_without_one,
            ),
            r,
        ),
{
    choose|r: Result<usize, usize>| #[trigger]
        call_ensures(
            AtomicUsize::fetch_update,
            (
                &*cfg.endpoint_count,
                std::sync::atomic::Ordering::Relaxed,
                std::sync::atomic::Ordering::Relaxed,
                count_without_one,
            ),
            r,
        )
}

/// Counting an endpoint out takes away one, and never the last one.
pub proof fn law_last_endpoint_stays_counted(n: usize, r: Option<usize>)
    requires
        call_ensures(count_without_one, (n,), r),
    ensures
        r is Some <==> n >= 2,
        r matches Some(left) ==> left + 1 == n && left >= 1,
{
}

/// A client starts with its number of endpoints, or with one if it has none.
pub proof fn law_count_starts_at_least_at_one(n: usize, r: usize)
    requires
        call_ensures(initial_count, (n,), r),
    ensures
        r >= 1,
        r == n || n == 0 && r == 1,
{
}

/// A quorum is counted in 32 bits.
pub proof fn law_quorum_is_counted(n: usize, r: u32)
    requires
        call_ensures(quorum_of, (n,), r),
    ensures
        r == majority(n),
{
}

/// A quorum of up to `u32::MAX` endpoints is more than half of them, and no more than
/// that takes.
pub proof fn law_quorum_is_the_least_majority(n: usize, r: u32)
    requires
        n <= u32::MAX,
        call_ensures(quorum_of, (n,), r),
    ensures
        2 * r > n,
        2 * (r - 1) <= n,
{
}

/// A new config holds what it was made with, and counts its endpoints from there.
pub proof fn law_new_config_holds_its_arguments(
    max_attempts: u32,
    wait: Duration,
    endpoints: usize,
    watch: bool,
    lease: bool,
    r: RetryConfig,
)
    requires
        call_ensures(RetryConfig::new, (max_attempts, wait, endpoints, watch, lease), r),
    ensures
        r.max_attempts == max_attempts,
        r.backoff_wait == wait,
        r.watch_reconnect == watch,
        r.lease_reconnect == lease,
        endpoints > 0 ==> call_ensures(AtomicUsize::new, (endpoints,), *r.endpoint_count),
        endpoints == 0 ==> call_ensures(AtomicUsize::new, (1usize,), *r.endpoint_count),
{
}

/// A disabled config makes one attempt and reconnects nothing.
pub proof fn law_disabled_config(r: RetryConfig)
    requires
        call_ensures(RetryConfig::disabled, (), r),
    ensures
        r.max_attempts == 1,
        nanos(r.backoff_wait) == 25_000_000,
        !r.watch_reconnect,
        !r.lease_reconnect,
        call_ensures(AtomicUsize::new, (1usize,), *r.endpoint_count),
{
}

/// A cloned config is the same one, with the same shared counter.
pub proof fn law_config_clone_is_the_same(cfg: RetryConfig, r: RetryConfig)
    requires
        call_ensures(<RetryConfig as Clone>::clone, (&cfg,), r),
    ensures
        r.max_attempts == cfg.max_attempts,
        r.backoff_wait == cfg.backoff_wait,
        r.endpoint_count == cfg.endpoint_count,
        r.watch_reconnect == cfg.watch_reconnect,
        r.lease_reconnect == cfg.lease_reconnect,
{
}

/// `d` is the base wait of `wait` nanoseconds, doubled `attempt` times but no more than
/// eight, and cut off at five seconds.
pub open spec fn doubled_to_five_seconds(wait: nat, attempt: u32, d: Duration) -> bool {
    let grown = wait * pow2(
        if attempt < 8 {
            attempt as nat
        } else {
            8
        },
    );
    nanos(d) == if grown < 5_000_000_000 {
        grown
    } else {
        5_000_000_000
    }
}

/// The wait before a stream is reopened doubles from the base wait, eight times at
/// most, and is never longer than five seconds.
pub proof fn law_reconnect_wait(cfg: RetryConfig, attempt: u32, d: Duration)
    requires
        call_ensures(RetryConfig::reconnect_backoff, (&cfg, attempt), d),
    ensures
        doubled_to_five_seconds(nanos(cfg.backoff_wait), attempt, d),
{
}

/// A longer outage never makes the wait shorter.
pub proof fn law_reconnect_wait_never_shrinks(
    cfg: RetryConfig,
    earlier: u32,
    first: Duration,
    later: u32,
    second: Duration,
)
    requires
        earlier <= later,
        call_ensures(RetryConfig::reconnect_backoff, (&cfg, earlier), first),
        call_ensures(RetryConfig::reconnect_backoff, (&cfg, later), second),
    ensures
        nanos(first) <= nanos(second) <= 5_000_000_000,
        nanos(cfg.backoff_wait) > 0 ==> nanos(first) > 0,
{
    crate::failover::law_reconnect_backoff_grows_to_the_cap(
        nanos(cfg.backoff_wait),
        earlier as nat,
        later as nat,
    );
}

} // verus!
