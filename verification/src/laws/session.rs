//! How credentials become a token.

use crate::error::Error;
use crate::failover::{classify, Decision, RetryPolicy};
use crate::session::{begin_refresh, sendable, store_token, AuthAttempt, AuthRun, AuthStep, Token};
use vstd::prelude::*;

verus! {

/// Request metadata can carry the character.
pub open spec fn visible(c: char) -> bool {
    c == '\t' || (' ' <= c && c != '\u{7f}')
}

/// Request metadata can carry every character of the text.
pub open spec fn all_visible(text: Seq<char>) -> bool {
    forall|i: int| 0 <= i < text.len() ==> visible(#[trigger] text[i])
}

/// A text becomes a token, unchanged, exactly if every character of it can be sent.
pub proof fn law_token_holds_the_text(text: String, r: Result<Token, Error>)
    requires
        call_ensures(Token::new, (text,), r),
    ensures
        r is Ok <==> all_visible(text@),
        r matches Ok(token) ==> token.text@ == text@,
        r matches Err(e) ==> e == Error::InvalidMetadataValue,
{
    lemma_sendable(text@);
}

/// The characters that can be sent, by their code points.
proof fn lemma_visible(c: char)
    ensures
        visible(c) <==> (c as u32 >= 32 && c as u32 != 127) || c == '\t',
{
}

/// A text can be sent exactly if each of its characters can.
proof fn lemma_sendable(text: Seq<char>)
    ensures
        sendable(text) <==> all_visible(text),
{
    assert forall|i: int| 0 <= i < text.len() implies (visible(#[trigger] text[i]) <==> (
    text[i] as u32 >= 32 && text[i] as u32 != 127) || text[i] == '\t') by {
        lemma_visible(text[i]);
    }
}

/// A cloned token is the same.
pub proof fn law_token_clone(token: Token, r: Token)
    requires
        call_ensures(<Token as Clone>::clone, (&token,), r),
    ensures
        r.text@ == token.text@,
{
}

/// An authentication begins with its name and password, as an idempotent RPC within
/// the budget, and is never itself re-authenticated.
pub proof fn law_authentication_begins(
    max_attempts: u32,
    name: String,
    password: String,
    run: AuthRun,
)
    requires
        call_ensures(AuthRun::start, (max_attempts, name, password), run),
    ensures
        run.name == name,
        run.password == password,
        run.run.policy == RetryPolicy::Repeatable,
        !run.run.reauth,
        run.run.attempt == 0,
        max_attempts >= 1 ==> run.run.max == max_attempts,
        max_attempts == 0 ==> run.run.max == 1,
{
}

/// Every attempt at an authentication is made with the name and the password that it
/// began with.
pub proof fn law_credentials_are_sent(run: AuthRun, r: (String, String))
    requires
        call_ensures(AuthRun::request, (&run,), r),
    ensures
        r.0 == run.name,
        r.1 == run.password,
{
}

/// A reply ends the authentication with the token that its text stands for, or with the
/// error that the text cannot be sent.
pub proof fn law_reply_is_minted(run: &mut AuthRun, text: String, step: AuthAttempt)
    requires
        call_ensures(AuthRun::on_result, (run, Ok(text)), step),
    ensures
        all_visible(text@) ==> (step matches AuthAttempt::Return(Ok(token)) && token.text@
            == text@),
        !all_visible(text@) ==> step == AuthAttempt::Return(Err(Error::InvalidMetadataValue)),
        final(run).name == old(run).name,
        final(run).password == old(run).password,
        final(run).run == old(run).run,
{
    lemma_sendable(text@);
}

/// A failed attempt is repeated with the same name and password exactly if the reaction
/// is to retry and the budget lasts. Otherwise its error is what the authentication
/// ends with.
pub proof fn law_failed_authentication_step(
    run: &mut AuthRun,
    err: Error,
    reaction: Decision,
    step: AuthAttempt,
)
    requires
        old(run).run.policy == RetryPolicy::Repeatable,
        !old(run).run.reauth,
        old(run).run.attempt < old(run).run.max,
        call_ensures(classify, (&err, RetryPolicy::Repeatable), reaction),
        call_ensures(AuthRun::on_result, (run, Err(err)), step),
    ensures
        reaction == Decision::Retry && old(run).run.attempt + 1 < old(run).run.max ==> step
            == AuthAttempt::Attempt(old(run).name, old(run).password) && final(run).run.attempt
            == old(run).run.attempt + 1,
        !(reaction == Decision::Retry && old(run).run.attempt + 1 < old(run).run.max) ==> step
            == AuthAttempt::Return(Err(err)) && final(run).run.attempt == old(run).run.attempt,
        final(run).name == old(run).name,
        final(run).password == old(run).password,
        final(run).run.max == old(run).run.max,
        final(run).run.policy == old(run).run.policy,
        final(run).run.reauth == old(run).run.reauth,
{
}

/// A refresh with credentials asks to authenticate with them and leaves the token until
/// then. Without credentials the token is dropped.
pub proof fn law_refresh_begins(
    creds: Option<(String, String)>,
    token: &mut Option<Token>,
    step: AuthStep,
)
    requires
        call_ensures(begin_refresh, (&creds, token), step),
    ensures
        creds matches Some((name, password)) ==> step == AuthStep::Authenticate(name, password)
            && *final(token) == *old(token),
        creds is None ==> step is Done && *final(token) is None,
{
}

/// A new token replaces the old one; a failed authentication leaves it and is returned.
pub proof fn law_refresh_ends(
    token: &mut Option<Token>,
    outcome: Result<Token, Error>,
    r: Result<(), Error>,
)
    requires
        call_ensures(store_token, (token, outcome), r),
    ensures
        outcome matches Ok(new) ==> r is Ok && *final(token) == Some(new),
        outcome matches Err(e) ==> r == Err::<(), Error>(e) && *final(token) == *old(token),
{
}

/// An authentication that was begun takes any result of an attempt.
pub proof fn law_authentication_takes_any_result(run: &mut AuthRun, res: Result<String, Error>)
    requires
        old(run).run.policy == RetryPolicy::Repeatable,
        !old(run).run.reauth,
        old(run).run.attempt < old(run).run.max,
    ensures
        call_requires(AuthRun::on_result, (run, res)),
{
}

} // verus!
