//! How a run of attempts goes on.

use crate::error::Error;
use crate::failover::{classify, Decision, RetryPolicy};
use crate::laws::failover::{lemma_reaction, refused_or_unconnected, token_rejected};
use crate::retry::{RetryRun, RetryStep};
use crate::status::Code;
use vstd::prelude::*;

verus! {

/// A run begins with attempt 0 of as many as were asked for, but of at least one.
pub proof fn law_run_begins(policy: RetryPolicy, reauth: bool, max_attempts: u32, run: RetryRun)
    requires
        call_ensures(RetryRun::start, (policy, reauth, max_attempts), run),
    ensures
        run.policy == policy,
        run.reauth == reauth,
        run.attempt == 0,
        max_attempts >= 1 ==> run.max == max_attempts,
        max_attempts == 0 ==> run.max == 1,
{
}

/// A run never changes but for the attempt under way, which only moves on by one, and
/// that exactly when another attempt is to be issued.
pub proof fn law_run_moves_on_by_one<T>(run: &mut RetryRun, res: Result<T, Error>, step: RetryStep<T>)
    requires
        old(run).attempt < old(run).max,
        call_ensures(RetryRun::on_result::<T>, (run, res), step),
    ensures
        final(run).policy == old(run).policy,
        final(run).reauth == old(run).reauth,
        final(run).max == old(run).max,
        final(run).attempt < final(run).max,
        step is Attempt || step is RefreshThenAttempt ==> final(run).attempt == old(run).attempt
            + 1,
        step is Return || step is RefreshThenFail ==> final(run).attempt == old(run).attempt,
{
}

/// A success ends the run with its value.
pub proof fn law_success_is_returned<T>(run: &mut RetryRun, value: T, step: RetryStep<T>)
    requires
        call_ensures(RetryRun::on_result::<T>, (run, Ok(value)), step),
    ensures
        step == RetryStep::<T>::Return(Ok(value)),
{
}

/// An error leads to what the reaction to it says, as long as the budget lasts: an
/// attempt, or a token refresh and an attempt. It is what the run ends with when the
/// reaction is to stop, when the budget is spent, or when a token is rejected and there
/// are no credentials.
pub proof fn law_error_step<T>(run: &mut RetryRun, err: Error, reaction: Decision, step: RetryStep<T>)
    requires
        old(run).attempt < old(run).max,
        call_ensures(classify, (&err, old(run).policy), reaction),
        call_ensures(RetryRun::on_result::<T>, (run, Err(err)), step),
    ensures
        step is Attempt <==> reaction == Decision::Retry && old(run).attempt + 1 < old(run).max,
        step is RefreshThenAttempt <==> reaction == Decision::RefreshToken && old(run).reauth
            && old(run).attempt + 1 < old(run).max,
        step is RefreshThenFail <==> reaction == Decision::RefreshToken && old(run).reauth
            && old(run).attempt + 1 == old(run).max,
        step matches RetryStep::RefreshThenFail(e) ==> e == err,
        step matches RetryStep::Return(r) ==> r == Err::<T, Error>(err),
{
}

/// A mutating RPC is sent again only after a rejected token, with credentials to get a
/// new one, or after an endpoint was unavailable in a way that proves that the request
/// never reached it.
pub proof fn law_write_is_sent_again_only_if_not_applied<T>(
    run: &mut RetryRun,
    res: Result<T, Error>,
    step: RetryStep<T>,
)
    requires
        old(run).attempt < old(run).max,
        old(run).policy == RetryPolicy::NonRepeatable,
        call_ensures(RetryRun::on_result::<T>, (run, res), step),
        step is Attempt || step is RefreshThenAttempt,
    ensures
        res matches Err(Error::GRpcStatus(status)) && {
            ||| step is RefreshThenAttempt && token_rejected(status) && old(run).reauth
            ||| step is Attempt && status.code == Code::Unavailable && refused_or_unconnected(
                status,
            )
        },
{
    lemma_reaction(res->Err_0, old(run).policy);
}

/// An idempotent RPC fails over from an endpoint that was unavailable, timed out or
/// cancelled, as long as the budget lasts.
pub proof fn law_read_fails_over<T>(run: &mut RetryRun, err: Error, step: RetryStep<T>)
    requires
        old(run).attempt + 1 < old(run).max,
        old(run).policy == RetryPolicy::Repeatable,
        err matches Error::GRpcStatus(status) && !token_rejected(status) && (status.code
            == Code::Unavailable || status.code == Code::DeadlineExceeded || status.code
            == Code::Cancelled),
        call_ensures(RetryRun::on_result::<T>, (run, Err(err)), step),
    ensures
        step is Attempt,
{
    lemma_reaction(err, old(run).policy);
}

/// A run takes any result of an attempt within its budget.
pub proof fn law_run_takes_any_result<T>(run: &mut RetryRun, res: Result<T, Error>)
    requires
        old(run).attempt < old(run).max,
    ensures
        call_requires(RetryRun::on_result::<T>, (run, res)),
{
}

} // verus!
