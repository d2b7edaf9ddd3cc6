//! The retry loop around one RPC, as a step function.
//!
//! A run starts with attempt 0. The caller pauses as the run says, issues the
//! attempt, and reports its result to learn what to do next.

use crate::error::Error;
use crate::failover::{
    backoff_for, classify, decision, transient, was_read, Decision, RetryConfig,
    RetryPolicy,
};
use crate::status::{asks_for_token, not_sent, Code};
use core::time::Duration;
use vstd::prelude::*;

verus! {

/// A run of attempts at one RPC.
#[derive(Clone, Copy, Debug, PartialEq, Eq, Structural)]
pub struct RetryRun {
    pub policy: RetryPolicy,
    /// Credentials are at hand, so a rejected auth token can be refreshed.
    pub reauth: bool,
    /// Total attempts, at least one.
    pub max: u32,
    /// The attempt that is under way, counted from 0.
    pub attempt: u32,
}

/// What to do after an attempt.
#[derive(Debug)]
pub enum RetryStep<T> {
    /// Issue the next attempt.
    Attempt,
    /// Refresh the auth token, whether or not that succeeds, then issue the next
    /// attempt.
    RefreshThenAttempt,
    /// Refresh the auth token, whether or not that succeeds, then fail with the error.
    RefreshThenFail(Error),
    /// The run ends with the result.
    Return(Result<T, Error>),
}

/// The run as it stands when its next attempt is under way.
pub open spec fn next_attempt(run: RetryRun) -> RetryRun {
    RetryRun { attempt: (run.attempt + 1) as u32, ..run }
}

/// What follows when the attempt under way ends with `res`.
pub open spec fn step_after<T>(run: RetryRun, res: Result<T, Error>) -> RetryStep<T> {
    let more = run.attempt + 1 < run.max;
    match res {
        Ok(_) => RetryStep::Return(res),
        Err(err) => match decision(err, run.policy) {
            Decision::Stop => RetryStep::Return(res),
            Decision::Retry => if more {
                RetryStep::Attempt
            } else {
                RetryStep::Return(res)
            },
            Decision::RefreshToken => if !run.reauth {
                RetryStep::Return(res)
            } else if more {
                RetryStep::RefreshThenAttempt
            } else {
                RetryStep::RefreshThenFail(err)
            },
        },
    }
}

/// The step leads to another attempt.
pub open spec fn goes_on<T>(step: RetryStep<T>) -> bool {
    step is Attempt || step is RefreshThenAttempt
}

/// The run after the attempt under way ended with `res`.
pub open spec fn run_after<T>(run: RetryRun, res: Result<T, Error>) -> RetryRun {
    if goes_on(step_after(run, res)) {
        next_attempt(run)
    } else {
        run
    }
}

/// A run with attempt 0 under way. At least one attempt is made, whatever the
/// budget.
pub open spec fn new_run(policy: RetryPolicy, reauth: bool, max_attempts: u32) -> RetryRun {
    RetryRun {
        policy,
        reauth,
        max: if max_attempts == 0 {
            1
        } else {
            max_attempts
        },
        attempt: 0,
    }
}

impl RetryRun {
    /// The attempt under way is within the budget.
    pub open spec fn wf(self) -> bool {
        self.attempt < self.max
    }

    /// A run with attempt 0 under way.
    pub fn start(policy: RetryPolicy, reauth: bool, max_attempts: u32) -> (r: Self)
        ensures
            r.wf(),
            r == new_run(policy, reauth, max_attempts),
    {
        let max: u32 = if max_attempts == 0 {
            1
        } else {
            max_attempts
        };
        RetryRun { policy, reauth, max, attempt: 0 }
    }

    /// The pause before the attempt under way, for the endpoints that are live right
    /// now. `None` when their quorum, as a 32-bit count, is zero.
    pub fn pause(&self, retry: &RetryConfig) -> (r: Option<Duration>)
        ensures
            exists|endpoints: usize| #[trigger]
                was_read(*retry.endpoint_count, endpoints) && backoff_for(
                    retry.backoff_wait,
                    self.attempt as nat,
                    endpoints as nat,
                    r,
                ),
    {
        retry.backoff(self.attempt)
    }

    /// Takes the result of the attempt under way and tells what to do next.
    pub fn on_result<T>(&mut self, res: Result<T, Error>) -> (r: RetryStep<T>)
        requires
            old(self).wf(),
        ensures
            r == step_after(*old(self), res),
            *final(self) == run_after(*old(self), res),
            final(self).wf(),
    {
        let err = match res {
            Ok(value) => {
                return RetryStep::Return(Ok(value));
            },
            Err(err) => err,
        };
        let more = self.attempt < self.max - 1;
        match classify(&err, self.policy) {
            Decision::Stop => RetryStep::Return(Err(err)),
            Decision::Retry => if more {
                self.attempt = self.attempt + 1;
                RetryStep::Attempt
            } else {
                RetryStep::Return(Err(err))
            },
            // Without credentials there is nothing to refresh, so repeating the
            // same auth error would just burn the budget.
            Decision::RefreshToken => if !self.reauth {
                RetryStep::Return(Err(err))
            } else if more {
                self.attempt = self.attempt + 1;
                RetryStep::RefreshThenAttempt
            } else {
                RetryStep::RefreshThenFail(err)
            },
        }
    }
}

/// How many attempts have been issued when the run ends, if attempt `i` ends with
/// `outcomes[i]`.
pub open spec fn attempts_issued<T>(run: RetryRun, outcomes: Seq<Result<T, Error>>) -> nat
    decreases run.max - run.attempt,
{
    let res = outcomes[run.attempt as int];
    if run.wf() && goes_on(step_after(run, res)) {
        attempts_issued(next_attempt(run), outcomes)
    } else {
        (run.attempt + 1) as nat
    }
}

/// What the run ends with, if attempt `i` ends with `outcomes[i]`.
pub open spec fn run_result<T>(run: RetryRun, outcomes: Seq<Result<T, Error>>) -> Result<T, Error>
    decreases run.max - run.attempt,
{
    let res = outcomes[run.attempt as int];
    if run.wf() {
        match step_after(run, res) {
            RetryStep::Return(r) => r,
            RetryStep::RefreshThenFail(e) => Err(e),
            _ => run_result(next_attempt(run), outcomes),
        }
    } else {
        res
    }
}

/// The error proves that the server did not apply the request: it turned the
/// auth token down, or the request never reached it.
pub open spec fn never_applied(err: Error) -> bool {
    match err {
        Error::GRpcStatus(status) => asks_for_token(status) || (status.code == Code::Unavailable
            && not_sent(status)),
        _ => false,
    }
}

/// The error is a status that another endpoint may not answer with.
pub open spec fn endpoint_failed(err: Error) -> bool {
    match err {
        Error::GRpcStatus(status) => transient(status.code) && !asks_for_token(status),
        _ => false,
    }
}

/// A run issues no more attempts than its budget.
pub proof fn law_budget_bounds_attempts<T>(run: RetryRun, outcomes: Seq<Result<T, Error>>)
    requires
        run.wf(),
    ensures
        run.attempt < attempts_issued(run, outcomes) <= run.max,
    decreases run.max - run.attempt,
{
    if goes_on(step_after(run, outcomes[run.attempt as int])) {
        law_budget_bounds_attempts(next_attempt(run), outcomes);
    }
}

/// A budget of one attempt, or none, disables retry: a single attempt is issued.
pub proof fn law_retry_disabled<T>(
    policy: RetryPolicy,
    reauth: bool,
    max_attempts: u32,
    outcomes: Seq<Result<T, Error>>,
)
    requires
        max_attempts <= 1,
    ensures
        attempts_issued(new_run(policy, reauth, max_attempts), outcomes) == 1,
        run_result(new_run(policy, reauth, max_attempts), outcomes) == outcomes[0],
{
}

/// A run ends as its last attempt ended: earlier errors, and failed token
/// refreshes, do not mask that.
pub proof fn law_result_is_the_last_outcome<T>(run: RetryRun, outcomes: Seq<Result<T, Error>>)
    requires
        run.wf(),
    ensures
        run_result(run, outcomes) == outcomes[attempts_issued(run, outcomes) - 1],
    decreases run.max - run.attempt,
{
    if goes_on(step_after(run, outcomes[run.attempt as int])) {
        law_result_is_the_last_outcome(next_attempt(run), outcomes);
    }
}

/// No attempt follows a success.
pub proof fn law_success_ends_the_run<T>(run: RetryRun, outcomes: Seq<Result<T, Error>>, i: int)
    requires
        run.wf(),
        run.attempt <= i < attempts_issued(run, outcomes) - 1,
    ensures
        outcomes[i] is Err,
    decreases run.max - run.attempt,
{
    if goes_on(step_after(run, outcomes[run.attempt as int])) && i > run.attempt {
        law_success_ends_the_run(next_attempt(run), outcomes, i);
    }
}

/// A write is applied at most once: a mutating RPC is issued again only after an
/// error that proves the attempt before was never applied.
pub proof fn law_write_at_most_once<T>(run: RetryRun, outcomes: Seq<Result<T, Error>>, i: int)
    requires
        run.wf(),
        run.policy == RetryPolicy::NonRepeatable,
        run.attempt <= i < attempts_issued(run, outcomes) - 1,
    ensures
        outcomes[i] matches Err(err) && never_applied(err),
    decreases run.max - run.attempt,
{
    if goes_on(step_after(run, outcomes[run.attempt as int])) && i > run.attempt {
        law_write_at_most_once(next_attempt(run), outcomes, i);
    }
}

/// An idempotent RPC outlasts endpoints that do not answer: if every attempt before
/// `success` ends with a transient status, and `success` succeeds within the budget,
/// the run ends with that success.
pub proof fn law_repeatable_fails_over<T>(
    run: RetryRun,
    outcomes: Seq<Result<T, Error>>,
    success: u32,
)
    requires
        run.wf(),
        run.policy == RetryPolicy::Repeatable,
        run.attempt <= success < run.max,
        outcomes[success as int] is Ok,
        forall|i: int|
            run.attempt <= i < success ==> (#[trigger] outcomes[i] matches Err(err)
                && endpoint_failed(err)),
    ensures
        run_result(run, outcomes) == outcomes[success as int],
        attempts_issued(run, outcomes) == success + 1,
    decreases run.max - run.attempt,
{
    if run.attempt < success {
        assert(outcomes[run.attempt as int] is Err);
        law_repeatable_fails_over(next_attempt(run), outcomes, success);
    }
}

/// When every endpoint is down, the run ends with an error after exactly its budget.
pub proof fn law_total_outage_errors<T>(run: RetryRun, outcomes: Seq<Result<T, Error>>)
    requires
        run.wf(),
        run.policy == RetryPolicy::Repeatable,
        forall|i: int|
            run.attempt <= i < run.max ==> (#[trigger] outcomes[i] matches Err(err)
                && endpoint_failed(err)),
    ensures
        attempts_issued(run, outcomes) == run.max,
        run_result(run, outcomes) == outcomes[run.max - 1],
        run_result(run, outcomes) is Err,
    decreases run.max - run.attempt,
{
    assert(outcomes[run.attempt as int] is Err);
    if run.attempt + 1 < run.max {
        law_total_outage_errors(next_attempt(run), outcomes);
    }
}

} // verus!
