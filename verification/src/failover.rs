//! Which failed attempts may be repeated, and how retries are paced.
//!
//! Idempotent RPCs ([`RetryPolicy::Repeatable`]) are retried on any transient
//! error. Mutating RPCs ([`RetryPolicy::NonRepeatable`]) are retried only when
//! the request provably never took effect, so a write is applied at most once.

use crate::error::Error;
use crate::status::{asks_for_token, is_auth_token_error, is_not_sent, not_sent, Code, Status};
use crate::time::{nanos, shorter};
use core::time::Duration;
use std::sync::atomic::AtomicUsize;
use std::sync::Arc;
use vstd::arithmetic::power2::pow2;
use vstd::prelude::*;

verus! {

/// Whether an RPC may be safely re-issued.
#[derive(Clone, Copy, Debug, PartialEq, Eq, Structural)]
pub enum RetryPolicy {
    /// Idempotent: safe to retry on any transient error.
    Repeatable,
    /// Mutating: retry only when the request provably never reached a server.
    NonRepeatable,
}

/// How to react to a failed attempt.
#[derive(Clone, Copy, Debug, PartialEq, Eq, Structural)]
pub enum Decision {
    Retry,
    RefreshToken,
    Stop,
}

/// The code reports that this endpoint did not answer, while another may.
pub open spec fn transient(code: Code) -> bool {
    ||| code == Code::Unavailable
    ||| code == Code::DeadlineExceeded
    ||| code == Code::Cancelled
}

/// The reaction to an attempt that ended with `status`.
pub open spec fn status_decision(status: Status, policy: RetryPolicy) -> Decision {
    if asks_for_token(status) {
        Decision::RefreshToken
    } else if policy == RetryPolicy::Repeatable && transient(status.code) {
        Decision::Retry
    } else if policy == RetryPolicy::NonRepeatable && status.code == Code::Unavailable && not_sent(
        status,
    ) {
        Decision::Retry
    } else {
        Decision::Stop
    }
}

/// The reaction to an attempt that ended with `err`. Only a gRPC status is ever
/// worth another attempt.
pub open spec fn decision(err: Error, policy: RetryPolicy) -> Decision {
    match err {
        Error::GRpcStatus(status) => status_decision(status, policy),
        _ => Decision::Stop,
    }
}

/// Decide how to react to a failed unary attempt.
pub fn classify(err: &Error, policy: RetryPolicy) -> (r: Decision)
    ensures
        r == decision(*err, policy),
{
    let status = match err {
        Error::GRpcStatus(status) => status,
        _ => {
            return Decision::Stop;
        },
    };
    // Auth-token errors do not share one gRPC code (an invalid token is
    // `Unauthenticated`, a stale auth revision or empty user name is
    // `InvalidArgument`), so they are told by their message.
    if is_auth_token_error(status) {
        return Decision::RefreshToken;
    }
    match status.code {
        Code::Unavailable => match policy {
            RetryPolicy::Repeatable => Decision::Retry,
            RetryPolicy::NonRepeatable => if is_not_sent(status) {
                Decision::Retry
            } else {
                Decision::Stop
            },
        },
        // The endpoint is unresponsive. An idempotent RPC fails over to another
        // endpoint; a write may have been applied before the deadline fired.
        Code::DeadlineExceeded | Code::Cancelled => match policy {
            RetryPolicy::Repeatable => Decision::Retry,
            RetryPolicy::NonRepeatable => Decision::Stop,
        },
        _ => Decision::Stop,
    }
}

/// The number of attempts that sweeps a quorum of `endpoints`, as a 32-bit count.
pub open spec fn quorum(endpoints: nat) -> nat {
    ((endpoints / 2 + 1) % 0x1_0000_0000) as nat
}

/// An attempt (counted from 0) is preceded by a pause: never the first, and then
/// once per quorum of attempts.
pub open spec fn pauses(attempt: nat, quorum: nat) -> bool {
    attempt != 0 && attempt % quorum == 0
}

/// `r` is the backoff before an attempt, with a base wait of `wait` and
/// `endpoints` live endpoints. There is none if their quorum is zero.
pub open spec fn backoff_for(
    wait: Duration,
    attempt: nat,
    endpoints: nat,
    r: Option<Duration>,
) -> bool {
    match r {
        Some(d) => {
            &&& attempt == 0 || quorum(endpoints) != 0
            &&& pauses(attempt, quorum(endpoints)) ==> d == wait
            &&& !pauses(attempt, quorum(endpoints)) ==> nanos(d) == 0
        },
        None => attempt != 0 && quorum(endpoints) == 0,
    }
}

/// The longest wait before a stream is reopened: five seconds.
pub open spec fn reconnect_cap() -> nat {
    5_000_000_000
}

/// The wait before a stream is reopened for the `attempt`-th time in a row: the
/// base wait doubled per attempt, eight times at most, up to the cap.
pub open spec fn reconnect_nanos(wait: nat, attempt: nat) -> nat {
    let grown = wait * pow2(
        if attempt < 8 {
            attempt
        } else {
            8
        },
    );
    if grown < reconnect_cap() {
        grown
    } else {
        reconnect_cap()
    }
}

/// Failover tuning, derived from the connect options. Cheap to clone.
#[derive(Debug)]
pub struct RetryConfig {
    /// Total attempts including the first. `<= 1` disables retry.
    pub max_attempts: u32,
    /// Base wait between retry rounds.
    pub backoff_wait: Duration,
    /// Live endpoint count, used to pace backoff by quorum. Shared with every
    /// clone so an added or removed endpoint re-paces the whole client.
    pub endpoint_count: Arc<AtomicUsize>,
    /// Auto-reconnect a broken watch stream, resuming from the last revision.
    pub watch_reconnect: bool,
    /// Auto-reconnect a broken lease keep-alive stream.
    pub lease_reconnect: bool,
}

impl Clone for RetryConfig {
    /// The clone shares the live endpoint count with the value it was cloned from.
    fn clone(&self) -> (r: Self)
        ensures
            r == *self,
    {
        RetryConfig {
            max_attempts: self.max_attempts,
            backoff_wait: self.backoff_wait,
            endpoint_count: self.endpoint_count.clone(),
            watch_reconnect: self.watch_reconnect,
            lease_reconnect: self.lease_reconnect,
        }
    }
}

/// The number of attempts that sweeps a quorum of `endpoints`.
pub fn quorum_of(endpoints: usize) -> (r: u32)
    ensures
        r == quorum(endpoints as nat),
{
    let half = (endpoints / 2 + 1) as u64;
    assert(half as u32 == half % 0x1_0000_0000) by (bit_vector);
    half as u32
}

/// The endpoint count after one of `endpoints` was removed; `None` when it stays
/// as it is, because it never drops below one.
pub fn count_without_one(endpoints: usize) -> (r: Option<usize>)
    ensures
        r == (if endpoints > 1 {
            Some((endpoints - 1) as usize)
        } else {
            None
        }),
        r matches Some(n) ==> n >= 1,
{
    if endpoints > 1 {
        Some(endpoints - 1)
    } else {
        None
    }
}

/// The endpoint count that a client with `endpoints` endpoints starts with: one if
/// there is none.
pub open spec fn first_count(endpoints: usize) -> usize {
    if endpoints < 1 {
        1
    } else {
        endpoints
    }
}

/// The endpoint count that a client with `endpoints` endpoints starts with.
pub fn initial_count(endpoints: usize) -> (r: usize)
    ensures
        r == first_count(endpoints),
{
    if endpoints < 1 {
        1
    } else {
        endpoints
    }
}

/// `AtomicUsize::fetch_update`: it calls `f` with the value that the atomic holds and
/// stores what `f` returns, until no other thread changed the value in between or `f`
/// returns `None`. Other threads decide which values those are, so what it returns is
/// not stated. It loads with `fetch_order`, and a load panics on `Release` and
/// `AcqRel`.
pub assume_specification<F: FnMut(usize) -> Option<usize>>[ AtomicUsize::fetch_update::<F> ](
    atomic: &AtomicUsize,
    set_order: std::sync::atomic::Ordering,
    fetch_order: std::sync::atomic::Ordering,
    f: F,
) -> Result<usize, usize>
    requires
        fetch_order is Relaxed || fetch_order is Acquire || fetch_order is SeqCst,
        forall|n: usize| #[trigger] call_requires(f, (n,)),
;

/// The count was made with the value `n`.
pub open spec fn starts_at(count: AtomicUsize, n: usize) -> bool {
    call_ensures(AtomicUsize::new, (n,), count)
}

/// The count was read, and it was `n`.
pub open spec fn was_read(count: AtomicUsize, n: usize) -> bool {
    call_ensures(
        AtomicUsize::load,
        (&count, std::sync::atomic::Ordering::Relaxed),
        n,
    )
}

/// One was added to the count.
pub open spec fn counted_up(count: AtomicUsize) -> bool {
    exists|before: usize| #[trigger]
        call_ensures(
            AtomicUsize::fetch_add,
            (&count, 1usize, std::sync::atomic::Ordering::Relaxed),
            before,
        )
}

/// The count was replaced by what [`count_without_one`] makes of it.
pub open spec fn counted_down(count: AtomicUsize) -> bool {
    exists|r: Result<usize, usize>| #[trigger]
        call_ensures(
            AtomicUsize::fetch_update,
            (
                &count,
                std::sync::atomic::Ordering::Relaxed,
                std::sync::atomic::Ordering::Relaxed,
                count_without_one,
            ),
            r,
        )
}

impl RetryConfig {
    /// A config for a client with `endpoint_count` endpoints, counted as one if
    /// there is none.
    pub fn new(
        max_attempts: u32,
        backoff_wait: Duration,
        endpoint_count: usize,
        watch_reconnect: bool,
        lease_reconnect: bool,
    ) -> (r: Self)
        ensures
            r.max_attempts == max_attempts,
            r.backoff_wait == backoff_wait,
            r.watch_reconnect == watch_reconnect,
            r.lease_reconnect == lease_reconnect,
            starts_at(*r.endpoint_count, first_count(endpoint_count)),
    {
        RetryConfig {
            max_attempts,
            backoff_wait,
            endpoint_count: Arc::new(AtomicUsize::new(initial_count(endpoint_count))),
            watch_reconnect,
            lease_reconnect,
        }
    }

    /// A single attempt, a base wait of 25 ms, no reconnect, and one endpoint to
    /// start with.
    pub open spec fn is_disabled(self) -> bool {
        &&& self.max_attempts == 1
        &&& nanos(self.backoff_wait) == 25_000_000
        &&& !self.watch_reconnect
        &&& !self.lease_reconnect
        &&& starts_at(*self.endpoint_count, 1)
    }

    /// A config with retry effectively disabled (single attempt).
    pub fn disabled() -> (r: Self)
        ensures
            r.is_disabled(),
    {
        Self::new(1, Duration::from_millis(25), 1, false, false)
    }

    /// Backoff before `attempt` (0-indexed) for a client with `endpoints` live
    /// endpoints: only sleep once per quorum of attempts so retries sweep a
    /// quorum of endpoints quickly, then pause. Jitter is left to the caller.
    pub fn backoff_at(&self, attempt: u32, endpoints: usize) -> (r: Duration)
        requires
            attempt == 0 || quorum(endpoints as nat) != 0,
        ensures
            backoff_for(self.backoff_wait, attempt as nat, endpoints as nat, Some(r)),
    {
        if attempt == 0 {
            return Duration::from_millis(0);
        }
        if attempt % quorum_of(endpoints) == 0 {
            self.backoff_wait
        } else {
            Duration::from_millis(0)
        }
    }

    /// The number of endpoints that are live right now. Other clones may change it
    /// at any time, so which number that is is not stated.
    pub fn live_endpoints(&self) -> (r: usize)
        ensures
            was_read(*self.endpoint_count, r),
    {
        self.endpoint_count.load(std::sync::atomic::Ordering::Relaxed)
    }

    /// Backoff before `attempt` for the endpoints that are live right now. `None`
    /// when their quorum, as a 32-bit count, is zero.
    pub fn backoff(&self, attempt: u32) -> (r: Option<Duration>)
        ensures
            exists|endpoints: usize| #[trigger]
                was_read(*self.endpoint_count, endpoints) && backoff_for(
                    self.backoff_wait,
                    attempt as nat,
                    endpoints as nat,
                    r,
                ),
    {
        let endpoints: usize = self.live_endpoints();
        let r = if attempt != 0 && quorum_of(endpoints) == 0 {
            None
        } else {
            Some(self.backoff_at(attempt, endpoints))
        };
        assert(was_read(*self.endpoint_count, endpoints));
        r
    }

    /// Tracks a successful `add_endpoint`, so backoff paces against the live
    /// endpoint count. `max_attempts` stays as derived at connect time.
    pub fn endpoint_added(&self)
        ensures
            counted_up(*self.endpoint_count),
    {
        let _ = self.endpoint_count.fetch_add(1, std::sync::atomic::Ordering::Relaxed);
    }

    /// Tracks a successful `remove_endpoint`, never dropping below one.
    pub fn endpoint_removed(&self)
        ensures
            counted_down(*self.endpoint_count),
    {
        let _ = self.endpoint_count.fetch_update(
            std::sync::atomic::Ordering::Relaxed,
            std::sync::atomic::Ordering::Relaxed,
            count_without_one,
        );
    }

    /// Backoff for a stream reconnect attempt: exponential from the base wait,
    /// capped, so a long outage does not busy-loop the reconnect task. Jitter is
    /// left to the caller.
    pub fn reconnect_backoff(&self, attempt: u32) -> (r: Duration)
        ensures
            nanos(r) == reconnect_nanos(nanos(self.backoff_wait), attempt as nat),
    {
        let cap = Duration::from_secs(5);
        let shift: u32 = if attempt < 8 {
            attempt
        } else {
            8
        };
        proof {
            vstd::arithmetic::power2::lemma2_to64();
            if shift < 8 {
                vstd::arithmetic::power2::lemma_pow2_strictly_increases(shift as nat, 8);
            }
            vstd::bits::lemma_u32_shl_is_mul(1u32, shift);
        }
        let grown = self.backoff_wait.saturating_mul(1u32 << shift);
        shorter(grown, cap)
    }
}

/// A mutating RPC is repeated only after proof that its request never reached a
/// server.
pub proof fn law_write_retry_needs_proof(err: Error)
    requires
        decision(err, RetryPolicy::NonRepeatable) == Decision::Retry,
    ensures
        err matches Error::GRpcStatus(status) && status.code == Code::Unavailable && not_sent(
            status,
        ),
{
}

/// Whatever may be repeated for a mutating RPC may be repeated for an idempotent
/// one.
pub proof fn law_repeatable_retries_more(err: Error)
    requires
        decision(err, RetryPolicy::NonRepeatable) == Decision::Retry,
    ensures
        decision(err, RetryPolicy::Repeatable) == Decision::Retry,
{
}

/// A rejected auth token is refreshed whatever the status code and the policy are.
pub proof fn law_token_error_refreshes(status: Status, policy: RetryPolicy)
    requires
        asks_for_token(status),
    ensures
        decision(Error::GRpcStatus(status), policy) == Decision::RefreshToken,
{
}

/// Among any `q` consecutive retries exactly one is preceded by a pause, where `q`
/// is the quorum: retries sweep a quorum of endpoints, then pause.
pub proof fn law_one_pause_per_quorum(first: nat, q: nat) -> (pause: nat)
    requires
        first >= 1,
        q >= 1,
    ensures
        first <= pause < first + q,
        pauses(pause, q),
        forall|attempt: nat|
            first <= attempt < first + q && attempt != pause ==> !pauses(attempt, q),
{
    let rest = first % q;
    let pause = if rest == 0 {
        first
    } else {
        (first + (q - rest)) as nat
    };
    vstd::arithmetic::div_mod::lemma_fundamental_div_mod(first as int, q as int);
    let k = first / q;
    assert(pause == q * k || pause == q * (k + 1)) by (nonlinear_arith)
        requires
            first == q * k + rest,
            pause == if rest == 0 {
                first as int
            } else {
                first + (q - rest)
            },
    ;
    let m = if rest == 0 {
        k
    } else {
        k + 1
    };
    assert(q * (k + 1) == q * k + q) by (nonlinear_arith);
    assert(pause == q * m);
    vstd::arithmetic::div_mod::lemma_mod_multiples_basic(m as int, q as int);
    assert(q * m == m * q) by (nonlinear_arith);
    assert forall|attempt: nat|
        first <= attempt < first + q && attempt != pause implies !pauses(attempt, q) by {
        if attempt % q == 0 {
            vstd::arithmetic::div_mod::lemma_fundamental_div_mod(attempt as int, q as int);
            let n = attempt / q;
            assert(n < m ==> q * n + q <= q * m) by (nonlinear_arith);
            assert(n > m ==> q * n >= q * m + q) by (nonlinear_arith);
        }
    }
    pause
}

/// Backoff for one endpoint more than `n` pauses before every retry whose number is a
/// multiple of the larger group's majority, and nowhere else.
pub proof fn law_one_more_endpoint_paces_by_its_majority(
    wait: Duration,
    attempt: nat,
    n: nat,
    pause: Duration,
)
    requires
        n + 1 < 0x1_0000_0000,
        backoff_for(wait, attempt, n + 1, Some(pause)),
    ensures
        attempt > 0 && attempt % ((n + 1) / 2 + 1) == 0 ==> pause == wait,
        !(attempt > 0 && attempt % ((n + 1) / 2 + 1) == 0) ==> nanos(pause) == 0,
{
}

/// With a single endpoint every retry is preceded by a pause, the first attempt
/// never.
pub proof fn law_single_endpoint_pauses_always(attempt: nat)
    ensures
        pauses(attempt, quorum(1)) <==> attempt > 0,
{
}

/// The wait before a stream is reopened never shrinks as attempts go on, never is
/// longer than the cap, and is only zero if the base wait is.
pub proof fn law_reconnect_backoff_grows_to_the_cap(wait: nat, earlier: nat, later: nat)
    requires
        earlier <= later,
    ensures
        reconnect_nanos(wait, earlier) <= reconnect_nanos(wait, later),
        reconnect_nanos(wait, later) <= reconnect_cap(),
        wait > 0 ==> reconnect_nanos(wait, earlier) > 0,
{
    let a = if earlier < 8 {
        earlier
    } else {
        8
    };
    let b = if later < 8 {
        later
    } else {
        8
    };
    vstd::arithmetic::power2::lemma_pow2_pos(a);
    if a < b {
        vstd::arithmetic::power2::lemma_pow2_strictly_increases(a, b);
    }
    assert(wait * pow2(a) <= wait * pow2(b)) by (nonlinear_arith)
        requires
            pow2(a) <= pow2(b),
    ;
    assert(wait > 0 ==> wait * pow2(a) > 0) by (nonlinear_arith)
        requires
            pow2(a) > 0,
    ;
}

/// Below the cap the wait doubles with each attempt, eight times.
pub proof fn law_reconnect_backoff_doubles(wait: nat, attempt: nat)
    requires
        attempt < 8,
        reconnect_nanos(wait, attempt + 1) < reconnect_cap(),
    ensures
        reconnect_nanos(wait, attempt + 1) == 2 * reconnect_nanos(wait, attempt),
{
    vstd::arithmetic::power2::lemma_pow2_unfold(attempt + 1);
    assert(wait * (2 * pow2(attempt)) == 2 * (wait * pow2(attempt))) by (nonlinear_arith);
}

} // verus!
