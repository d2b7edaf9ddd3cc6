//! How one request is dispatched.

use crate::caller::{CallOptions, CallRun, CallStep, ClientCaller, ClientCallerBuilder};
use crate::error::Error;
use crate::failover::{RetryConfig, RetryPolicy};
use crate::session::{AuthRun, AuthStep, Token};
use crate::status::Code;
use crate::time::nanos;
use vstd::prelude::*;

verus! {

/// A request is followed by a token refresh only if it ended with the status
/// `Unauthenticated` and no refresh was made before. Every other result, a success or
/// any other error, is what the request ends with.
pub proof fn law_only_unauthenticated_is_refreshed<Req, R>(
    run: &mut CallRun<Req>,
    res: Result<R, Error>,
    step: CallStep<Req, R>,
)
    requires
        call_ensures(CallRun::<Req>::on_result::<R>, (run, res), step),
    ensures
        step is Refresh <==> old(run).may_refresh && (res matches Err(Error::GRpcStatus(status))
            && status.code == Code::Unauthenticated),
        step !is Refresh ==> step == CallStep::<Req, R>::Return(res),
        final(run).req == old(run).req,
        step is Refresh ==> !final(run).may_refresh,
        step !is Refresh ==> final(run).may_refresh == old(run).may_refresh,
{
}

/// After a refresh the kept request is sent again; a failed refresh is what the request
/// ends with.
pub proof fn law_refreshed_request_is_resent<Req, R>(
    run: &mut CallRun<Req>,
    res: Result<(), Error>,
    step: CallStep<Req, R>,
)
    requires
        call_ensures(CallRun::<Req>::on_refreshed::<R>, (run, res), step),
    ensures
        res is Ok && old(run).req is Some ==> step == CallStep::<Req, R>::Resend(old(run).req->0),
        res matches Err(e) ==> step == CallStep::<Req, R>::Return(Err(e)),
        res is Ok ==> final(run).req is None,
        res is Err ==> final(run).req == old(run).req,
        final(run).may_refresh == old(run).may_refresh,
{
}

/// A request is sent at most twice: once it was sent again, whatever comes back is what
/// it ends with.
pub proof fn law_second_result_stands<Req, R>(
    run: &mut CallRun<Req>,
    res: Result<R, Error>,
    step: CallStep<Req, R>,
)
    requires
        !old(run).may_refresh,
        call_ensures(CallRun::<Req>::on_result::<R>, (run, res), step),
    ensures
        step == CallStep::<Req, R>::Return(res),
{
}

/// A request begins with itself or a clone of itself being sent. It can be refreshed
/// exactly if that is asked for and there are credentials, and is then kept.
pub proof fn law_request_begins<T, A, Req: Clone>(
    caller: ClientCaller<T, A>,
    req: Req,
    r: (CallRun<Req>, Req),
)
    requires
        call_ensures(ClientCaller::<T, A>::do_call::<Req>, (&caller, req), r),
    ensures
        r.0.may_refresh <==> caller.options.refresh_expired_token && caller.options.creds is Some,
        r.0.may_refresh ==> r.0.req == Some(req) && cloned(req, r.1),
        !r.0.may_refresh ==> r.0.req is None && r.1 == req,
{
}

/// A built caller has what its builder was made with, and the client that was made for
/// the builder's channel.
pub proof fn law_builder_hands_over<A, H, T, F: FnOnce(H) -> T>(
    options: CallOptions,
    token: Option<Token>,
    auth_client: A,
    channel: H,
    builder: ClientCallerBuilder<A, H>,
    f: F,
    caller: ClientCaller<T, A>,
)
    requires
        call_ensures(
            ClientCallerBuilder::<A, H>::new,
            (options, token, auth_client, channel),
            builder,
        ),
        call_ensures(ClientCallerBuilder::<A, H>::build::<T, F>, (builder, f), caller),
    ensures
        call_ensures(f, (channel,), caller.inner),
        caller.auth_client == auth_client,
        caller.auth_token == token,
        caller.options == options,
        caller.retry.max_attempts == 1,
        !caller.retry.watch_reconnect,
        !caller.retry.lease_reconnect,
        nanos(caller.retry.backoff_wait) == 25_000_000,
{
}

/// A new caller has what it was made with, and retry disabled.
pub proof fn law_new_caller<T, A>(
    inner: T,
    auth_client: A,
    token: Option<Token>,
    options: CallOptions,
    r: ClientCaller<T, A>,
)
    requires
        call_ensures(ClientCaller::<T, A>::new, (inner, auth_client, token, options), r),
    ensures
        r.inner == inner,
        r.auth_client == auth_client,
        r.auth_token == token,
        r.options == options,
        r.retry.max_attempts == 1,
        !r.retry.watch_reconnect,
        !r.retry.lease_reconnect,
        nanos(r.retry.backoff_wait) == 25_000_000,
{
}

/// Installing a retry config changes nothing else.
pub proof fn law_caller_retry<T, A>(caller: &mut ClientCaller<T, A>, retry: RetryConfig)
    requires
        call_ensures(ClientCaller::<T, A>::set_retry, (caller, retry), ()),
    ensures
        final(caller).retry == retry,
        final(caller).inner == old(caller).inner,
        final(caller).auth_client == old(caller).auth_client,
        final(caller).auth_token == old(caller).auth_token,
        final(caller).options == old(caller).options,
{
}

/// Replacing the inner client changes nothing else.
pub proof fn law_caller_with<T, A, F: FnOnce(T) -> T>(
    caller: ClientCaller<T, A>,
    f: F,
    r: ClientCaller<T, A>,
)
    requires
        call_ensures(ClientCaller::<T, A>::with::<F>, (caller, f), r),
    ensures
        call_ensures(f, (caller.inner,), r.inner),
        r.auth_client == caller.auth_client,
        r.auth_token == caller.auth_token,
        r.options == caller.options,
        r.retry == caller.retry,
{
}

/// All of a caller but its token and its options.
pub open spec fn same_parts<T, A>(a: ClientCaller<T, A>, b: ClientCaller<T, A>) -> bool {
    a.inner == b.inner && a.auth_client == b.auth_client && a.retry == b.retry
}

/// Cloned call options are the same.
pub proof fn law_call_options_clone(options: CallOptions, r: CallOptions)
    requires
        call_ensures(<CallOptions as Clone>::clone, (&options,), r),
    ensures
        r.creds == options.creds,
        r.refresh_expired_token == options.refresh_expired_token,
{
}

/// A refresh asks to authenticate with the credentials, or drops the token if there are
/// none.
pub proof fn law_caller_refresh<T, A>(caller: &mut ClientCaller<T, A>, step: AuthStep)
    requires
        call_ensures(ClientCaller::<T, A>::refresh_token, (caller,), step),
    ensures
        old(caller).options.creds matches Some((name, password)) ==> step
            == AuthStep::Authenticate(name, password) && final(caller).auth_token
            == old(caller).auth_token,
        old(caller).options.creds is None ==> step is Done && final(caller).auth_token is None,
        final(caller).options == old(caller).options,
        same_parts(*final(caller), *old(caller)),
{
}

/// The outcome of a refresh: a new token replaces the old one, a failure changes
/// nothing.
pub proof fn law_caller_refreshed<T, A>(
    caller: &mut ClientCaller<T, A>,
    outcome: Result<Token, Error>,
    r: Result<(), Error>,
)
    requires
        call_ensures(ClientCaller::<T, A>::token_refreshed, (caller, outcome), r),
    ensures
        outcome matches Ok(token) ==> r is Ok && final(caller).auth_token == Some(token),
        outcome matches Err(e) ==> r == Err::<(), Error>(e) && *final(caller) == *old(caller),
        final(caller).options == old(caller).options,
        same_parts(*final(caller), *old(caller)),
{
}

/// A new user is first authenticated, with nothing changed until then. No user removes
/// token and credentials.
pub proof fn law_caller_user_update<T, A>(
    caller: &mut ClientCaller<T, A>,
    creds: Option<(String, String)>,
    step: AuthStep,
)
    requires
        call_ensures(ClientCaller::<T, A>::update_user, (caller, &creds), step),
    ensures
        creds matches Some((name, password)) ==> step == AuthStep::Authenticate(name, password)
            && *final(caller) == *old(caller),
        creds is None ==> {
            &&& step is Done
            &&& final(caller).auth_token is None
            &&& final(caller).options.creds is None
        },
        final(caller).options.refresh_expired_token == old(caller).options.refresh_expired_token,
        same_parts(*final(caller), *old(caller)),
{
}

/// The outcome of authenticating a new user: both token and credentials change, or
/// nothing does.
pub proof fn law_caller_user_updated<T, A>(
    caller: &mut ClientCaller<T, A>,
    creds: (String, String),
    outcome: Result<Token, Error>,
    r: Result<(), Error>,
)
    requires
        call_ensures(ClientCaller::<T, A>::user_updated, (caller, creds, outcome), r),
    ensures
        outcome matches Ok(token) ==> {
            &&& r is Ok
            &&& final(caller).auth_token == Some(token)
            &&& final(caller).options.creds == Some(creds)
        },
        outcome matches Err(e) ==> {
            &&& r == Err::<(), Error>(e)
            &&& final(caller).auth_token == old(caller).auth_token
            &&& final(caller).options.creds == old(caller).options.creds
        },
        final(caller).options.refresh_expired_token == old(caller).options.refresh_expired_token,
        same_parts(*final(caller), *old(caller)),
{
}

/// An authentication is made with the given name and password, within the caller's
/// budget.
pub proof fn law_caller_authenticates<T, A>(
    caller: ClientCaller<T, A>,
    user: String,
    password: String,
    run: AuthRun,
)
    requires
        call_ensures(ClientCaller::<T, A>::do_authenticate, (&caller, user, password), run),
    ensures
        run.name == user,
        run.password == password,
        run.run.policy == RetryPolicy::Repeatable,
        !run.run.reauth,
        run.run.attempt == 0,
        caller.retry.max_attempts >= 1 ==> run.run.max == caller.retry.max_attempts,
        caller.retry.max_attempts == 0 ==> run.run.max == 1,
{
}

/// A request that was kept takes any outcome of the refresh.
pub proof fn law_kept_request_takes_any_refresh<Req, R>(
    run: &mut CallRun<Req>,
    res: Result<(), Error>,
)
    requires
        old(run).req is Some,
    ensures
        call_requires(CallRun::<Req>::on_refreshed::<R>, (run, res)),
{
}

} // verus!
