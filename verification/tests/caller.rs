use etcd_client::caller::{CallOptions, CallStep, ClientCaller, ClientCallerBuilder};
use etcd_client::error::Error;
use etcd_client::failover::RetryConfig;
use etcd_client::session::{AuthAttempt, AuthRun, AuthStep, Token};
use etcd_client::status::{Code, Status};
use std::time::Duration;

fn creds(name: &str) -> Option<(String, String)> {
    Some((name.to_string(), "secret".to_string()))
}

fn caller(creds: Option<(String, String)>, refresh: bool) -> ClientCaller<u32, &'static str> {
    let options = CallOptions {
        creds,
        refresh_expired_token: refresh,
    };
    ClientCallerBuilder::new(options, Some(token("old")), "auth", 20u16)
        .build(|channel| u32::from(channel) + 1)
}

fn token(text: &str) -> Token {
    Token::new(text.to_string()).unwrap()
}

fn text(token: &Option<Token>) -> Option<&str> {
    token.as_ref().map(|t| t.text.as_str())
}

fn auth(max_attempts: u32) -> AuthRun {
    AuthRun::start(max_attempts, "root".to_string(), "secret".to_string())
}

fn expired() -> Error {
    Error::GRpcStatus(Status::new(Code::Unauthenticated, "expired"))
}

#[test]
fn builder_passes_its_parts_on() {
    let c = caller(creds("root"), true);
    assert_eq!(c.inner, 21);
    assert_eq!(c.auth_client, "auth");
    assert_eq!(text(&c.auth_token), Some("old"));
    assert_eq!(c.retry.max_attempts, 1);
    let c = c.with(|n| n * 2);
    assert_eq!(c.inner, 42);
    assert_eq!(c.auth_client, "auth");
}

#[test]
fn expired_token_is_refreshed_and_the_request_sent_again() {
    let c = caller(creds("root"), true);
    let (mut run, first) = c.do_call("put".to_string());
    assert_eq!(first, "put");
    assert!(matches!(run.on_result::<u8>(Err(expired())), CallStep::Refresh));
    match run.on_refreshed::<u8>(Ok(())) {
        CallStep::Resend(again) => assert_eq!(again, "put"),
        other => panic!("unexpected {other:?}"),
    }
    // The second result stands, even if it is the same error again.
    assert!(matches!(
        run.on_result::<u8>(Err(expired())),
        CallStep::Return(Err(Error::GRpcStatus(_)))
    ));
}

#[test]
fn failed_refresh_is_returned() {
    let c = caller(creds("root"), true);
    let (mut run, _) = c.do_call(1u8);
    assert!(matches!(run.on_result::<u8>(Err(expired())), CallStep::Refresh));
    assert!(matches!(
        run.on_refreshed::<u8>(Err(Error::InvalidMetadataValue)),
        CallStep::Return(Err(Error::InvalidMetadataValue))
    ));
}

#[test]
fn results_stand_without_an_expired_token() {
    let (mut run, _) = caller(creds("root"), true).do_call(1u8);
    assert!(matches!(run.on_result(Ok(5u8)), CallStep::Return(Ok(5))));
    let other = Error::GRpcStatus(Status::new(Code::PermissionDenied, "no"));
    assert!(matches!(run.on_result::<u8>(Err(other)), CallStep::Return(Err(_))));
    for c in [caller(None, true), caller(creds("root"), false)] {
        let (mut run, first) = c.do_call(3u8);
        assert_eq!(first, 3);
        assert!(run.req.is_none());
        assert!(matches!(
            run.on_result::<u8>(Err(expired())),
            CallStep::Return(Err(_))
        ));
    }
}

#[test]
fn refresh_stores_the_token_or_drops_it() {
    let mut c = caller(creds("root"), true);
    match c.refresh_token() {
        AuthStep::Authenticate(user, password) => {
            assert_eq!((user.as_str(), password.as_str()), ("root", "secret"))
        }
        AuthStep::Done => panic!("credentials are set"),
    }
    assert_eq!(text(&c.auth_token), Some("old"));
    assert!(c.token_refreshed(Ok(token("new.token"))).is_ok());
    assert_eq!(text(&c.auth_token), Some("new.token"));

    let mut c = caller(None, true);
    assert!(matches!(c.refresh_token(), AuthStep::Done));
    assert!(c.auth_token.is_none());
}

#[test]
fn failed_authentication_changes_nothing() {
    let mut c = caller(creds("root"), true);
    assert!(matches!(
        c.token_refreshed(Err(expired())),
        Err(Error::GRpcStatus(_))
    ));
    assert_eq!(text(&c.auth_token), Some("old"));
    let new = creds("alice");
    assert!(matches!(c.update_user(&new), AuthStep::Authenticate(_, _)));
    assert!(c.user_updated(new.unwrap(), Err(expired())).is_err());
    assert_eq!(c.options.creds, creds("root"));
    assert_eq!(text(&c.auth_token), Some("old"));
}

#[test]
fn tokens_that_metadata_cannot_carry_are_rejected() {
    for bad in ["line\nbreak", "nul\0", "del\u{7f}"] {
        assert!(matches!(
            Token::new(bad.to_string()),
            Err(Error::InvalidMetadataValue)
        ));
        let mut run = auth(3);
        assert!(matches!(
            run.on_result(Ok(bad.to_string())),
            AuthAttempt::Return(Err(Error::InvalidMetadataValue))
        ));
    }
    for good in ["a b\tc", "~!", "caf\u{e9}", ""] {
        assert_eq!(Token::new(good.to_string()).unwrap().text, good);
    }
}

#[test]
fn authentication_is_repeated_only_on_transient_errors() {
    let down = || Error::GRpcStatus(Status::new(Code::Unavailable, "down"));
    let mut run = auth(3);
    assert_eq!(run.request(), creds("root").unwrap());
    match run.on_result(Err(down())) {
        AuthAttempt::Attempt(name, password) => {
            assert_eq!((name.as_str(), password.as_str()), ("root", "secret"))
        }
        other => panic!("unexpected {other:?}"),
    }
    match run.on_result(Ok("tok".to_string())) {
        AuthAttempt::Return(Ok(token)) => assert_eq!(token.text, "tok"),
        other => panic!("unexpected {other:?}"),
    }
    let mut run = auth(2);
    assert!(matches!(run.on_result(Err(down())), AuthAttempt::Attempt(_, _)));
    assert!(matches!(run.on_result(Err(down())), AuthAttempt::Return(Err(_))));
    // Its own token errors are not refreshed.
    let stale = Error::GRpcStatus(Status::new(Code::Unauthenticated, "invalid auth token"));
    let mut run = auth(5);
    assert!(matches!(run.on_result(Err(stale)), AuthAttempt::Return(Err(_))));
}

#[test]
fn updating_the_user_replaces_credentials_and_token() {
    let mut c = caller(creds("root"), true);
    let new = creds("alice");
    assert!(matches!(c.update_user(&new), AuthStep::Authenticate(u, _) if u == "alice"));
    assert!(c.user_updated(new.unwrap(), Ok(token("t2"))).is_ok());
    assert_eq!(c.options.creds, creds("alice"));
    assert_eq!(text(&c.auth_token), Some("t2"));
    assert!(matches!(c.update_user(&None), AuthStep::Done));
    assert_eq!(c.options.creds, None);
    assert!(c.auth_token.is_none());
    assert!(c.options.refresh_expired_token);
}

#[test]
fn authentication_fails_over_within_the_budget() {
    let mut c = caller(creds("root"), true);
    assert_eq!(c.do_authenticate("u".to_string(), "p".to_string()).run.max, 1);
    c.set_retry(RetryConfig::new(6, Duration::from_millis(25), 3, true, true));
    let run = c.do_authenticate("u".to_string(), "p".to_string()).run;
    assert_eq!((run.max, run.attempt, run.reauth), (6, 0, false));
}
