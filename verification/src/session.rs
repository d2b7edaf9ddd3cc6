//! Credentials and the auth token they are traded for.

use crate::error::Error;
use crate::failover::RetryPolicy;
use crate::retry::{new_run, run_after, step_after, RetryRun, RetryStep};
use vstd::prelude::*;

verus! {

/// A token that request metadata can carry: no control characters but the tab.
pub open spec fn sendable(token: Seq<char>) -> bool {
    forall|i: int|
        0 <= i < token.len() ==> (#[trigger] token[i] as u32 >= 32 && token[i] as u32 != 127)
            || token[i] == '\t'
}

/// The error of a string that metadata cannot carry.
#[verifier::external_type_specification]
#[verifier::external_body]
pub struct ExInvalidMetadataValue(tonic::metadata::errors::InvalidMetadataValue);

/// `MetadataValue::<Ascii>::from_str`, read back as text with
/// `MetadataValue::as_encoded_bytes`: it takes a string whose bytes are all at
/// least 32 and not 127, or the tab, and keeps it unchanged. The bytes of
/// characters outside ASCII are all above 127.
#[verifier::external_body]
fn parse_token(token: &str) -> (r: Result<String, tonic::metadata::errors::InvalidMetadataValue>)
    ensures
        r is Ok <==> sendable(token@),
        r matches Ok(text) ==> text@ == token@,
{
    token.parse::<tonic::metadata::MetadataValue<tonic::metadata::Ascii>>().map(
        |value| String::from_utf8_lossy(value.as_encoded_bytes()).into_owned(),
    )
}

/// An auth token, as it is sent with each request.
#[derive(Debug)]
pub struct Token {
    pub text: String,
}

impl Clone for Token {
    fn clone(&self) -> (r: Self)
        ensures
            r == *self,
    {
        Token { text: self.text.clone() }
    }
}

/// `r` is what becomes of the text that the server sent as a token.
pub open spec fn minted(text: Seq<char>, r: Result<Token, Error>) -> bool {
    match r {
        Ok(token) => sendable(text) && token.text@ == text,
        Err(e) => !sendable(text) && e is InvalidMetadataValue,
    }
}

impl Token {
    /// The token that a text stands for, if metadata can carry it.
    pub fn new(text: String) -> (r: Result<Token, Error>)
        ensures
            minted(text@, r),
    {
        match parse_token(text.as_str()) {
            Ok(text) => Ok(Token { text }),
            Err(_) => Err(Error::InvalidMetadataValue),
        }
    }
}

/// The attempts at one authentication.
#[derive(Debug)]
pub struct AuthRun {
    pub run: RetryRun,
    pub name: String,
    pub password: String,
}

/// What to do after an attempt at an authentication.
#[derive(Debug)]
pub enum AuthAttempt {
    /// Issue the next attempt, with this name and password.
    Attempt(String, String),
    /// The authentication ends with the token or the error.
    Return(Result<Token, Error>),
}

/// An authentication with attempt 0 under way: it only mints a token, so it fails over
/// like an idempotent RPC that cannot be re-authenticated.
pub open spec fn new_auth(max_attempts: u32, name: String, password: String) -> AuthRun {
    AuthRun { run: new_run(RetryPolicy::Repeatable, false, max_attempts), name, password }
}

impl AuthRun {
    /// The attempts are those of an idempotent RPC that cannot be re-authenticated.
    pub open spec fn wf(self) -> bool {
        self.run.wf() && self.run.policy == RetryPolicy::Repeatable && !self.run.reauth
    }

    /// Begins an authentication within the retry budget.
    pub fn start(max_attempts: u32, name: String, password: String) -> (r: Self)
        ensures
            r.wf(),
            r == new_auth(max_attempts, name, password),
    {
        AuthRun {
            run: RetryRun::start(RetryPolicy::Repeatable, false, max_attempts),
            name,
            password,
        }
    }

    /// The name and the password for the attempt under way.
    pub fn request(&self) -> (r: (String, String))
        ensures
            r == (self.name, self.password),
    {
        (self.name.clone(), self.password.clone())
    }

    /// Takes the result of the attempt under way, with the text that the server sent
    /// as a token, and tells what to do next.
    pub fn on_result(&mut self, res: Result<String, Error>) -> (r: AuthAttempt)
        requires
            old(self).wf(),
        ensures
            match res {
                Ok(text) => r matches AuthAttempt::Return(token) && minted(text@, token),
                Err(e) => r == (match step_after(old(self).run, res) {
                    RetryStep::Attempt => AuthAttempt::Attempt(
                        old(self).name,
                        old(self).password,
                    ),
                    _ => AuthAttempt::Return(Err(e)),
                }),
            },
            *final(self) == (AuthRun { run: run_after(old(self).run, res), ..*old(self) }),
            final(self).wf(),
    {
        match self.run.on_result(res) {
            RetryStep::Return(Ok(text)) => AuthAttempt::Return(Token::new(text)),
            RetryStep::Return(Err(e)) => AuthAttempt::Return(Err(e)),
            RetryStep::RefreshThenFail(e) => AuthAttempt::Return(Err(e)),
            RetryStep::Attempt | RetryStep::RefreshThenAttempt => AuthAttempt::Attempt(
                self.name.clone(),
                self.password.clone(),
            ),
        }
    }
}

/// A copy of credentials.
pub(crate) fn clone_creds(creds: &Option<(String, String)>) -> (r: Option<(String, String)>)
    ensures
        r == *creds,
{
    match creds {
        Some((user, password)) => Some((user.clone(), password.clone())),
        None => None,
    }
}

/// What to do next for an auth token.
#[derive(Debug)]
pub enum AuthStep {
    /// Authenticate with this name and password, and report the outcome.
    Authenticate(String, String),
    /// Nothing is left to do.
    Done,
}

/// The step that trades credentials for a token; none without credentials.
pub open spec fn auth_step(creds: Option<(String, String)>) -> AuthStep {
    match creds {
        Some((user, password)) => AuthStep::Authenticate(user, password),
        None => AuthStep::Done,
    }
}

/// The token when a refresh begins: without credentials it is dropped.
pub open spec fn token_before(creds: Option<(String, String)>, token: Option<Token>) -> Option<Token> {
    if creds is Some {
        token
    } else {
        None
    }
}

/// The token after an authentication: a new one replaces it, a failure leaves it.
pub open spec fn token_after(token: Option<Token>, outcome: Result<Token, Error>) -> Option<Token> {
    match outcome {
        Ok(new) => Some(new),
        Err(_) => token,
    }
}

/// The credentials after an authentication with `new`: they replace the old ones if
/// it succeeded.
pub open spec fn creds_after(
    creds: Option<(String, String)>,
    new: (String, String),
    outcome: Result<Token, Error>,
) -> Option<(String, String)> {
    if outcome is Ok {
        Some(new)
    } else {
        creds
    }
}

/// The result of taking in the outcome of an authentication.
pub open spec fn stored(outcome: Result<Token, Error>) -> Result<(), Error> {
    match outcome {
        Ok(_) => Ok(()),
        Err(e) => Err(e),
    }
}

/// Begins to refresh the token.
pub fn begin_refresh(creds: &Option<(String, String)>, token: &mut Option<Token>) -> (r: AuthStep)
    ensures
        r == auth_step(*creds),
        *final(token) == token_before(*creds, *old(token)),
{
    match creds {
        Some((user, password)) => AuthStep::Authenticate(user.clone(), password.clone()),
        None => {
            *token = None;
            AuthStep::Done
        },
    }
}

/// Stores the token that an authentication gave. If it failed, nothing changes.
pub fn store_token(token: &mut Option<Token>, outcome: Result<Token, Error>) -> (r: Result<
    (),
    Error,
>)
    ensures
        r == stored(outcome),
        *final(token) == token_after(*old(token), outcome),
{
    match outcome {
        Ok(new) => {
            *token = Some(new);
            Ok(())
        },
        Err(e) => Err(e),
    }
}

/// Nothing happens if an authentication fails: token and credentials stay, and the
/// error is returned.
pub proof fn law_failed_authentication_changes_nothing(
    token: Option<Token>,
    creds: Option<(String, String)>,
    new: (String, String),
    e: Error,
)
    ensures
        token_after(token, Err(e)) == token,
        creds_after(creds, new, Err(e)) == creds,
        stored(Err(e)) == Err::<(), Error>(e),
{
}

/// A text that metadata cannot carry never becomes the token.
pub proof fn law_token_is_sendable(
    text: Seq<char>,
    outcome: Result<Token, Error>,
    token: Option<Token>,
)
    requires
        minted(text, outcome),
        token matches Some(t) ==> sendable(t.text@),
    ensures
        token_after(token, outcome) matches Some(t) ==> sendable(t.text@),
        !sendable(text) ==> token_after(token, outcome) == token,
{
}

} // verus!
