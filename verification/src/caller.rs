//! The dispatch of one request: a request that is turned away because its auth
//! token expired is sent once more with a new token.

use crate::error::Error;
use crate::failover::RetryConfig;
use crate::session::{
    auth_step, begin_refresh, clone_creds, creds_after, new_auth, store_token, stored,
    token_after, token_before, AuthRun, AuthStep, Token,
};
use crate::status::Code;
use vstd::prelude::*;

verus! {

/// Describe the options for the client request caller.
#[derive(Debug)]
pub struct CallOptions {
    /// Authentication credentials if present.
    pub creds: Option<(String, String)>,
    /// Whether to automatically refresh an expired token.
    /// Requires each request cloning.
    pub refresh_expired_token: bool,
}

impl Clone for CallOptions {
    fn clone(&self) -> (r: Self)
        ensures
            r == *self,
    {
        CallOptions {
            creds: clone_creds(&self.creds),
            refresh_expired_token: self.refresh_expired_token,
        }
    }
}

/// Helps to build a [`ClientCaller`]. `A` is the client that authenticates, `H` the
/// channel that requests are sent over.
#[derive(Clone, Debug)]
pub struct ClientCallerBuilder<A, H> {
    pub options: CallOptions,
    pub auth_token: Option<Token>,
    pub auth_client: A,
    pub channel: H,
}

impl<A, H> ClientCallerBuilder<A, H> {
    /// Make a new [`ClientCallerBuilder`].
    pub fn new(
        options: CallOptions,
        auth_token: Option<Token>,
        auth_client: A,
        channel: H,
    ) -> (r: Self)
        ensures
            r == (ClientCallerBuilder { options, auth_token, auth_client, channel }),
    {
        ClientCallerBuilder { options, auth_token, auth_client, channel }
    }

    /// Build a new [`ClientCaller`] passing an actual client implementation. It starts
    /// with the builder's token and credentials as they are now.
    pub fn build<T, F: FnOnce(H) -> T>(self, f_inner: F) -> (r: ClientCaller<T, A>)
        requires
            call_requires(f_inner, (self.channel,)),
        ensures
            call_ensures(f_inner, (self.channel,), r.inner),
            r.auth_client == self.auth_client,
            r.auth_token == self.auth_token,
            r.options == self.options,
            r.retry.is_disabled(),
    {
        ClientCaller::new(f_inner(self.channel), self.auth_client, self.auth_token, self.options)
    }
}

/// This struct is responsible for dispatching the actions required for each
/// client request. It is parameterized by the inner client implementation, so
/// it can be reused across different clients. Its main method, [`do_call`],
/// controls how a user request is performed. Currently, the only supported
/// feature is automatic authentication token refresh upon expiration.
///
/// A clone has its own copy of token and credentials. Whoever wants clones to share
/// them shares the caller itself.
///
/// [`do_call`]: `ClientCaller::do_call`
#[derive(Clone, Debug)]
pub struct ClientCaller<T, A> {
    pub inner: T,
    pub auth_client: A,
    pub auth_token: Option<Token>,
    pub options: CallOptions,
    pub retry: RetryConfig,
}

/// The status that a request with an expired token ends with.
pub open spec fn unauthenticated(err: Error) -> bool {
    err matches Error::GRpcStatus(status) && status.code == Code::Unauthenticated
}

/// A request on its way.
#[derive(Debug)]
pub struct CallRun<Req> {
    /// An expired token may still be refreshed, and the request sent again.
    pub may_refresh: bool,
    /// The request, kept to be sent again.
    pub req: Option<Req>,
}

/// What to do next with a request.
#[derive(Debug)]
pub enum CallStep<Req, R> {
    /// Refresh the token, and report how that ended.
    Refresh,
    /// Send the request again.
    Resend(Req),
    /// The request is over.
    Return(Result<R, Error>),
}

/// `run` is the beginning of a request, and `first` is what is sent: a clone where an
/// expired token can be refreshed, so that the request itself is left to be sent
/// again; otherwise the request itself.
pub open spec fn begins_call<Req: Clone>(
    options: CallOptions,
    req: Req,
    run: CallRun<Req>,
    first: Req,
) -> bool {
    if options.refresh_expired_token && options.creds is Some {
        run == (CallRun { may_refresh: true, req: Some(req) }) && cloned(req, first)
    } else {
        run == (CallRun { may_refresh: false, req: None::<Req> }) && first == req
    }
}

/// What follows when the request was sent and ended with `res`: with an expired
/// token, a refresh if there was none before; otherwise the result stands.
pub open spec fn step_after_result<Req, R>(run: CallRun<Req>, res: Result<R, Error>) -> CallStep<
    Req,
    R,
> {
    if run.may_refresh && res is Err && unauthenticated(res->Err_0) {
        CallStep::Refresh
    } else {
        CallStep::Return(res)
    }
}

/// The request after it was sent: a refresh happens once.
pub open spec fn run_after_result<Req, R>(run: CallRun<Req>, res: Result<R, Error>) -> CallRun<
    Req,
> {
    CallRun { may_refresh: run.may_refresh && step_after_result(run, res) !is Refresh, ..run }
}

/// What follows when the refresh ended with `res`.
pub open spec fn step_after_refresh<Req, R>(run: CallRun<Req>, res: Result<(), Error>) -> CallStep<
    Req,
    R,
> {
    match res {
        Ok(()) => CallStep::Resend(run.req->0),
        Err(e) => CallStep::Return(Err(e)),
    }
}

/// The request after a refresh: it is handed out once.
pub open spec fn run_after_refresh<Req>(run: CallRun<Req>, res: Result<(), Error>) -> CallRun<Req> {
    if res is Ok {
        CallRun { req: None, ..run }
    } else {
        run
    }
}

impl<Req> CallRun<Req> {
    /// The request is there as long as it may have to be sent again.
    pub open spec fn wf(self) -> bool {
        self.may_refresh ==> self.req is Some
    }

    /// Takes the result of sending the request.
    pub fn on_result<R>(&mut self, res: Result<R, Error>) -> (r: CallStep<Req, R>)
        ensures
            r == step_after_result(*old(self), res),
            *final(self) == run_after_result(*old(self), res),
            old(self).wf() ==> final(self).wf() && (r is Refresh ==> final(self).req is Some),
    {
        if self.may_refresh {
            let expired = match &res {
                Err(Error::GRpcStatus(status)) => status.code == Code::Unauthenticated,
                _ => false,
            };
            if expired {
                self.may_refresh = false;
                return CallStep::Refresh;
            }
        }
        CallStep::Return(res)
    }

    /// Takes the result of refreshing the token.
    pub fn on_refreshed<R>(&mut self, res: Result<(), Error>) -> (r: CallStep<Req, R>)
        requires
            old(self).req is Some,
        ensures
            r == step_after_refresh::<Req, R>(*old(self), res),
            *final(self) == run_after_refresh(*old(self), res),
    {
        match res {
            Ok(()) => match self.req.take() {
                Some(req) => CallStep::Resend(req),
                None => CallStep::Refresh,
            },
            Err(e) => CallStep::Return(Err(e)),
        }
    }
}

impl<T, A> ClientCaller<T, A> {
    /// Make a new [`ClientCaller`].
    pub fn new(
        inner: T,
        auth_client: A,
        auth_token: Option<Token>,
        options: CallOptions,
    ) -> (r: Self)
        ensures
            r == (ClientCaller { inner, auth_client, auth_token, options, retry: r.retry }),
            r.retry.is_disabled(),
    {
        ClientCaller { inner, auth_client, auth_token, options, retry: RetryConfig::disabled() }
    }

    /// Installs the failover config (called once at client construction).
    pub fn set_retry(&mut self, retry: RetryConfig)
        ensures
            *final(self) == (ClientCaller { retry, ..*old(self) }),
    {
        self.retry = retry;
    }

    /// Begins to refresh the authentication token if the client has credentials
    /// options; without them the token is dropped.
    pub fn refresh_token(&mut self) -> (r: AuthStep)
        ensures
            r == auth_step(old(self).options.creds),
            *final(self) == (ClientCaller {
                auth_token: token_before(old(self).options.creds, old(self).auth_token),
                ..*old(self)
            }),
    {
        begin_refresh(&self.options.creds, &mut self.auth_token)
    }

    /// Takes the outcome of the authentication that a refresh asked for.
    pub fn token_refreshed(&mut self, outcome: Result<Token, Error>) -> (r: Result<(), Error>)
        ensures
            r == stored(outcome),
            *final(self) == (ClientCaller {
                auth_token: token_after(old(self).auth_token, outcome),
                ..*old(self)
            }),
    {
        store_token(&mut self.auth_token, outcome)
    }

    /// Begins to update a user.
    ///
    /// Client will perform the authentication with the given user credentials. If successful, the
    /// authentication token will be updated in the client. Nothing happens if the authentication
    /// fails.
    ///
    /// If the user is `None`, it will remove the authentication token from the client.
    pub fn update_user(&mut self, creds: &Option<(String, String)>) -> (r: AuthStep)
        ensures
            r == auth_step(*creds),
            *final(self) == (if creds is Some {
                *old(self)
            } else {
                ClientCaller {
                    auth_token: None,
                    options: CallOptions { creds: None, ..old(self).options },
                    ..*old(self)
                }
            }),
    {
        let step = begin_refresh(creds, &mut self.auth_token);
        if creds.is_none() {
            self.options.creds = None;
        }
        step
    }

    /// Takes the outcome of the authentication with the new user's credentials.
    pub fn user_updated(
        &mut self,
        creds: (String, String),
        outcome: Result<Token, Error>,
    ) -> (r: Result<(), Error>)
        ensures
            r == stored(outcome),
            *final(self) == (ClientCaller {
                auth_token: token_after(old(self).auth_token, outcome),
                options: CallOptions {
                    creds: creds_after(old(self).options.creds, creds, outcome),
                    ..old(self).options
                },
                ..*old(self)
            }),
    {
        store_token(&mut self.auth_token, outcome)?;
        self.options.creds = Some(creds);
        Ok(())
    }

    /// Mutate an inner client.
    pub fn with<F: FnOnce(T) -> T>(self, f: F) -> (r: Self)
        requires
            call_requires(f, (self.inner,)),
        ensures
            call_ensures(f, (self.inner,), r.inner),
            r == (ClientCaller { inner: r.inner, ..self }),
    {
        let ClientCaller { inner, auth_client, auth_token, options, retry } = self;
        ClientCaller { inner: f(inner), auth_client, auth_token, options, retry }
    }

    /// Begins a client request, and hands out what is to be sent. Without credentials,
    /// or with refreshing disabled, the request is sent once and not cloned.
    pub fn do_call<Req: Clone>(&self, req: Req) -> (r: (CallRun<Req>, Req))
        ensures
            begins_call(self.options, req, r.0, r.1),
            r.0.wf(),
    {
        if !self.options.refresh_expired_token || self.options.creds.is_none() {
            return (CallRun { may_refresh: false, req: None }, req);
        }
        let first = req.clone();
        (CallRun { may_refresh: true, req: Some(req) }, first)
    }

    /// Begins an authentication: it only mints a token, so it fails over like an
    /// idempotent RPC, within the retry budget.
    pub fn do_authenticate(&self, user: String, password: String) -> (r: AuthRun)
        ensures
            r.wf(),
            r == new_auth(self.retry.max_attempts, user, password),
    {
        AuthRun::start(self.retry.max_attempts, user, password)
    }
}

/// A request is sent at most twice: whatever the second result is, it stands.
pub proof fn law_sent_at_most_twice<Req, R>(
    run: CallRun<Req>,
    first: Result<R, Error>,
    refresh: Result<(), Error>,
    second: Result<R, Error>,
)
    requires
        step_after_result(run, first) is Refresh,
    ensures
        step_after_result(
            run_after_refresh(run_after_result(run, first), refresh),
            second,
        ) == CallStep::<Req, R>::Return(second),
{
}

/// What is sent the second time is the request that the call began with, and what was
/// sent the first time is a clone of it.
pub proof fn law_same_request_is_sent_again<Req: Clone, R>(
    options: CallOptions,
    req: Req,
    run: CallRun<Req>,
    first: Req,
    res: Result<R, Error>,
)
    requires
        begins_call(options, req, run, first),
        step_after_result(run, res) is Refresh,
    ensures
        cloned(req, first),
        step_after_refresh::<Req, R>(run_after_result(run, res), Ok(())) == CallStep::<
            Req,
            R,
        >::Resend(req),
{
}

/// Only an expired token leads to a second send. Every success, and every other
/// error, stands as it is.
pub proof fn law_only_an_expired_token_resends<Req, R>(run: CallRun<Req>, res: Result<R, Error>)
    requires
        step_after_result(run, res) != CallStep::<Req, R>::Return(res),
    ensures
        run.may_refresh,
        res matches Err(e) && unauthenticated(e),
        step_after_result(run, res) is Refresh,
{
}

/// A failed refresh is what the request fails with, and it is not sent again.
pub proof fn law_failed_refresh_is_returned<Req, R>(run: CallRun<Req>, e: Error)
    ensures
        step_after_refresh::<Req, R>(run, Err(e)) == CallStep::<Req, R>::Return(Err(e)),
{
}

} // verus!
