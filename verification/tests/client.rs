use etcd_client::client::{member_urls, Client, ConnectOptions, Rpc};
use etcd_client::endpoint::{build_endpoint, configure_tls, TlsSupport};
use etcd_client::error::Error;
use etcd_client::failover::RetryPolicy;
use etcd_client::session::{AuthStep, Token};
use std::time::Duration;
use tonic::transport::ClientTlsConfig;

fn urls(list: &[&str]) -> Vec<String> {
    list.iter().map(|s| s.to_string()).collect()
}

fn token(text: &str) -> Token {
    Token::new(text.to_string()).unwrap()
}

fn token_text(client: &Client) -> Option<&str> {
    client.auth_token.as_ref().map(|t| t.text.as_str())
}

fn uri_of(url: &str, options: &ConnectOptions, support: TlsSupport) -> String {
    build_endpoint(url, options, support).unwrap().uri().to_string()
}

#[test]
fn urls_without_a_scheme_get_one() {
    let plain = ConnectOptions::new();
    let tls = ConnectOptions::new().with_tls(ClientTlsConfig::new());
    let openssl = ConnectOptions::new().with_openssl_tls();
    assert_eq!(uri_of("localhost:2379", &plain, TlsSupport::Disabled), "http://localhost:2379/");
    assert_eq!(uri_of("localhost:2379", &plain, TlsSupport::Rustls), "http://localhost:2379/");
    assert_eq!(uri_of("localhost:2379", &tls, TlsSupport::Rustls), "https://localhost:2379/");
    assert_eq!(uri_of("localhost:2379", &openssl, TlsSupport::OpenSsl), "https://localhost:2379/");
    assert_eq!(uri_of("localhost:2379", &plain, TlsSupport::OpenSsl), "http://localhost:2379/");
    assert_eq!(uri_of("http://a:1", &plain, TlsSupport::Rustls), "http://a:1/");
    assert_eq!(uri_of("https://a:1", &plain, TlsSupport::Rustls), "https://a:1/");
    assert_eq!(uri_of("https://a:1", &plain, TlsSupport::OpenSsl), "https://a:1/");
}

#[test]
fn schemes_and_tls_options_must_agree() {
    let tls = ConnectOptions::new().with_tls(ClientTlsConfig::new());
    match build_endpoint("http://a:1", &tls, TlsSupport::Rustls) {
        Err(Error::InvalidArgs(message)) => {
            assert_eq!(message, "TLS options are only supported with HTTPS URLs")
        }
        _ => panic!("TLS options do not go with http"),
    }
    match build_endpoint("https://a:1", &ConnectOptions::new(), TlsSupport::Disabled) {
        Err(Error::InvalidArgs(message)) => assert_eq!(
            message,
            "HTTPS URLs are only supported with the feature \"tls\""
        ),
        _ => panic!("https needs TLS"),
    }
}

#[test]
fn text_that_is_no_uri_is_rejected() {
    let options = ConnectOptions::new();
    for bad in ["http://", "a b", "http://[::1"] {
        assert!(matches!(
            build_endpoint(bad, &options, TlsSupport::Disabled),
            Err(Error::InvalidUri)
        ));
    }
}

#[test]
fn transport_rejects_unusable_tls_options() {
    let garbage = tonic::transport::Certificate::from_pem(
        "-----BEGIN CERTIFICATE-----\n!!!\n-----END CERTIFICATE-----\n",
    );
    let tls = ConnectOptions::new().with_tls(ClientTlsConfig::new().ca_certificate(garbage));
    assert!(matches!(
        build_endpoint("https://a:1", &tls, TlsSupport::Rustls),
        Err(Error::TransportError)
    ));
}

#[test]
fn endpoint_carries_the_options() {
    let options = ConnectOptions::new()
        .with_keep_alive(Duration::from_secs(7), Duration::from_secs(8))
        .with_timeout(Duration::from_secs(3))
        .with_connect_timeout(Duration::from_secs(4))
        .with_tcp_keepalive(Duration::from_secs(5));
    let endpoint = build_endpoint("a:1", &options, TlsSupport::Disabled).unwrap();
    assert_eq!(endpoint.get_connect_timeout(), Some(Duration::from_secs(4)));
    assert_eq!(endpoint.get_tcp_keepalive(), Some(Duration::from_secs(5)));
    let bare = build_endpoint("a:1", &ConnectOptions::new(), TlsSupport::Disabled).unwrap();
    assert_eq!(bare.get_connect_timeout(), None);
    assert_eq!(bare.get_tcp_keepalive(), None);
}

#[test]
fn connect_builds_every_endpoint_in_order() {
    let (client, endpoints) = Client::connect(
        &urls(&["a:1", "http://b:2", "c:3"]),
        Some(ConnectOptions::new()),
        TlsSupport::Disabled,
    )
    .unwrap();
    let uris: Vec<String> = endpoints.iter().map(|e| e.uri().to_string()).collect();
    assert_eq!(uris, urls(&["http://a:1/", "http://b:2/", "http://c:3/"]));
    assert!(client.managed);
    assert_eq!(client.retry.max_attempts, 6);
    assert_eq!(client.retry.live_endpoints(), 3);
    assert_eq!(token_text(&client), None);
}

#[test]
fn connect_needs_endpoints() {
    match Client::connect(&vec![], None, TlsSupport::Disabled) {
        Err(Error::InvalidArgs(message)) => assert_eq!(message, "empty endpoints"),
        _ => panic!("no endpoints were given"),
    }
}

#[test]
fn connect_fails_with_the_first_bad_endpoint() {
    assert!(matches!(
        Client::connect(&urls(&["a:1", "a b", "https://c"]), None, TlsSupport::Disabled),
        Err(Error::InvalidUri)
    ));
    assert!(matches!(
        Client::connect(&urls(&["a:1", "https://c", "a b"]), None, TlsSupport::Disabled),
        Err(Error::InvalidArgs(_))
    ));
}

#[test]
fn retry_config_follows_the_options() {
    let client = Client::from_channel(None);
    assert!(!client.managed);
    assert_eq!(client.retry.max_attempts, 5);
    assert_eq!(client.retry.backoff_wait, Duration::from_millis(25));
    assert!(client.retry.watch_reconnect);
    assert!(client.retry.lease_reconnect);
    assert!(client.watch_client().retry.watch_reconnect);
    assert!(client.lease_client().retry.lease_reconnect);

    let options = ConnectOptions::new()
        .with_retries(1)
        .with_retry_backoff(Duration::from_millis(9))
        .with_lease_keepalive_reconnect(true);
    let client = Client::from_channel(Some(options));
    assert_eq!(client.retry.max_attempts, 1);
    assert_eq!(client.retry.backoff_wait, Duration::from_millis(9));
    assert!(!client.retry.watch_reconnect);
    assert!(client.retry.lease_reconnect);

    let options = ConnectOptions::new().with_watch_reconnect(false);
    let client = Client::from_channel(Some(options)).with_retry_config(10);
    assert_eq!(client.retry.max_attempts, 20);
    assert!(!client.retry.watch_reconnect);
    assert!(client.retry.lease_reconnect);
}

#[test]
fn streams_share_the_live_endpoint_count() {
    let client = Client::from_channel(None);
    let copy = client.clone();
    client.retry.endpoint_added();
    assert_eq!(copy.retry.live_endpoints(), 2);
    assert_eq!(client.watch_client().retry.live_endpoints(), 2);
    assert_eq!(client.lease_client().retry.live_endpoints(), 2);
}

#[test]
fn options_start_blank() {
    assert!(ConnectOptions::new().keep_alive_while_idle);
    assert!(!ConnectOptions::default().keep_alive_while_idle);
    let options = ConnectOptions::new()
        .with_user("root".to_string(), "pw".to_string())
        .with_keep_alive_while_idle(false)
        .with_require_leader(true);
    let copy = options.clone();
    assert_eq!(copy.user, Some(("root".to_string(), "pw".to_string())));
    assert!(!copy.keep_alive_while_idle);
    assert!(copy.require_leader);
    assert!(copy.tls.is_none());
}

#[test]
fn policies_split_reads_from_writes() {
    for rpc in [
        Rpc::Get,
        Rpc::LeaseGrant,
        Rpc::LeaseRevoke,
        Rpc::Leases,
        Rpc::Unlock,
        Rpc::Alarm,
        Rpc::Snapshot,
        Rpc::MoveLeader,
        Rpc::Observe,
    ] {
        assert_eq!(rpc.policy(), RetryPolicy::Repeatable);
    }
    for rpc in [
        Rpc::Put,
        Rpc::Delete,
        Rpc::Compact,
        Rpc::Txn,
        Rpc::Lock,
        Rpc::AuthEnable,
        Rpc::UserAdd,
        Rpc::Defragment,
        Rpc::MemberAdd,
        Rpc::Campaign,
        Rpc::Proclaim,
        Rpc::Resign,
    ] {
        assert_eq!(rpc.policy(), RetryPolicy::NonRepeatable);
    }
}

#[test]
fn runs_start_with_the_budget_and_policy() {
    let options = ConnectOptions::new().with_user("u".to_string(), "p".to_string());
    let client = Client::from_channel(Some(options));
    let run = client.run_failover(Rpc::Put);
    assert_eq!(run.policy, RetryPolicy::NonRepeatable);
    assert!(run.reauth);
    assert_eq!((run.max, run.attempt), (5, 0));
    let run = Client::from_channel(None).run_failover(Rpc::Get);
    assert_eq!(run.policy, RetryPolicy::Repeatable);
    assert!(!run.reauth);
    assert!(!client.do_authenticate("u".to_string(), "p".to_string()).run.reauth);
    assert_eq!(client.do_authenticate("u".to_string(), "p".to_string()).run.max, 5);
}

#[test]
fn only_managed_endpoints_can_be_changed() {
    let (client, _) = Client::connect(&urls(&["a:1"]), None, TlsSupport::Disabled).unwrap();
    let endpoint = client.add_endpoint("b:2", TlsSupport::Disabled).unwrap();
    assert_eq!(endpoint.uri().to_string(), "http://b:2/");
    assert!(client.endpoint_inserted(Ok(())).is_ok());
    assert_eq!(client.retry.live_endpoints(), 2);
    assert_eq!(client.remove_endpoint("http://b:2", TlsSupport::Disabled).unwrap().to_string(), "http://b:2/");
    assert!(client.endpoint_dropped(Ok(())).is_ok());
    assert_eq!(client.retry.live_endpoints(), 1);

    let unmanaged = Client::from_channel(None);
    assert!(matches!(
        unmanaged.add_endpoint("b:2", TlsSupport::Disabled),
        Err(Error::EndpointsNotManaged)
    ));
    assert!(matches!(
        unmanaged.remove_endpoint("http://b:2", TlsSupport::Disabled),
        Err(Error::EndpointsNotManaged)
    ));
    // A bad URL is told before that.
    assert!(matches!(
        unmanaged.add_endpoint("a b", TlsSupport::Disabled),
        Err(Error::InvalidUri)
    ));
    assert!(matches!(unmanaged.remove_endpoint("a b", TlsSupport::Disabled), Err(Error::InvalidUri)));
}

#[test]
fn the_same_text_removes_what_it_added() {
    let plain = ConnectOptions::new();
    let tls = ConnectOptions::new().with_tls(ClientTlsConfig::new());
    let openssl = ConnectOptions::new().with_openssl_tls();
    for (options, support, texts) in [
        (&plain, TlsSupport::Disabled, ["localhost:2379", "http://a:1", "host/path"]),
        (&plain, TlsSupport::Rustls, ["localhost:2379", "https://a:1", "host/path"]),
        (&tls, TlsSupport::Rustls, ["localhost:2379", "https://a:1", "host/path"]),
        (&openssl, TlsSupport::OpenSsl, ["localhost:2379", "http://a:1", "host/path"]),
    ] {
        let (client, _) =
            Client::connect(&urls(&["a:1"]), Some(options.clone()), support).unwrap();
        for text in texts {
            let added = client.add_endpoint(text, support).unwrap();
            let removed = client.remove_endpoint(text, support).unwrap();
            assert_eq!(added.uri(), &removed);
        }
    }
}

#[test]
fn transport_answer_decides_over_tls() {
    let options = ConnectOptions::new().with_connect_timeout(Duration::from_secs(2));
    let base = build_endpoint("a:1", &ConnectOptions::new(), TlsSupport::Disabled).unwrap();
    let set = configure_tls(Ok(base.clone()), &options).unwrap();
    assert_eq!(set.get_connect_timeout(), Some(Duration::from_secs(2)));
    let refused = base.tls_config(ClientTlsConfig::new().domain_name("not a host name"));
    assert!(matches!(configure_tls(refused, &options), Err(Error::TransportError)));
}

#[test]
fn a_closed_channel_is_an_endpoint_error() {
    let (client, _) = Client::connect(&urls(&["a:1"]), None, TlsSupport::Disabled).unwrap();
    match client.endpoint_inserted(Err("channel closed".to_string())) {
        Err(Error::EndpointError(message)) => {
            assert_eq!(message, "failed to add endpoint because of channel closed")
        }
        other => panic!("unexpected {other:?}"),
    }
    match client.endpoint_dropped(Err("channel closed".to_string())) {
        Err(Error::EndpointError(message)) => {
            assert_eq!(message, "failed to remove endpoint because of channel closed")
        }
        other => panic!("unexpected {other:?}"),
    }
    assert_eq!(client.retry.live_endpoints(), 1);
}

#[test]
fn member_urls_get_a_scheme_once() {
    let given = urls(&["a:1", "http://b:2", "https://c:3", ""]);
    let once = member_urls(&given);
    assert_eq!(once, urls(&["http://a:1", "http://b:2", "https://c:3", "http://"]));
    assert_eq!(member_urls(&once), once);
}

#[test]
fn credentials_are_traded_for_a_token() {
    let options = ConnectOptions::new().with_user("root".to_string(), "pw".to_string());
    let mut client = Client::from_channel(Some(options));
    assert!(matches!(
        client.refresh_token(),
        AuthStep::Authenticate(u, p) if u == "root" && p == "pw"
    ));
    assert!(client.token_refreshed(Ok(token("t1"))).is_ok());
    assert_eq!(token_text(&client), Some("t1"));

    let alice = Some(("alice".to_string(), "pw".to_string()));
    assert!(matches!(client.update_user(&alice), AuthStep::Authenticate(u, _) if u == "alice"));
    assert!(matches!(
        client.user_updated(alice.clone().unwrap(), Token::new("bad\n".to_string())),
        Err(Error::InvalidMetadataValue)
    ));
    assert_eq!(token_text(&client), Some("t1"));
    assert_eq!(client.options.user.as_ref().unwrap().0, "root");
    assert!(client.user_updated(alice.clone().unwrap(), Ok(token("t2"))).is_ok());
    assert_eq!(token_text(&client), Some("t2"));
    assert_eq!(client.options.user, alice);

    assert!(matches!(client.update_user(&None), AuthStep::Done));
    assert_eq!(token_text(&client), None);
    assert_eq!(client.options.user, None);
    assert!(matches!(client.refresh_token(), AuthStep::Done));
}
