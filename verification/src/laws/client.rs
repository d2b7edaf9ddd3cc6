//! What a client is set up with, which of its RPCs may be repeated, and how its
//! endpoints and its credentials change.

use crate::client::{member_urls, Client, ConnectOptions, Rpc};
use crate::endpoint::{endpoint_settings, endpoint_uri, TlsSupport};
use crate::error::Error;
use crate::failover::{count_without_one, RetryPolicy};
use crate::laws::endpoint::{
    begins, completed, contradicts, fails_with, has_scheme, lemma_builds, stands_for,
};
use crate::laws::failover::{lemma_reaction, refused_or_unconnected, token_rejected};
use crate::retry::{RetryRun, RetryStep};
use crate::rpc::lease::LeaseClient;
use crate::rpc::watch::WatchClient;
use crate::session::{AuthRun, AuthStep, Token};
use crate::status::Code;
use crate::time::nanos;
use core::time::Duration;
use http::uri::Uri;
use std::sync::atomic::AtomicUsize;
use tonic::transport::{ClientTlsConfig, Endpoint};
use vstd::prelude::*;

verus! {

/// Every RPC that changes something, and that repeated would change it again, is never
/// repeated on a transient error alone.
pub proof fn law_writes_are_not_repeatable(rpc: Rpc, r: RetryPolicy)
    requires
        call_ensures(Rpc::policy, (rpc,), r),
    ensures
        rpc == Rpc::Put ==> r == RetryPolicy::NonRepeatable,
        rpc == Rpc::Delete ==> r == RetryPolicy::NonRepeatable,
        rpc == Rpc::Compact ==> r == RetryPolicy::NonRepeatable,
        rpc == Rpc::Txn ==> r == RetryPolicy::NonRepeatable,
        rpc == Rpc::Lock ==> r == RetryPolicy::NonRepeatable,
        rpc == Rpc::AuthEnable ==> r == RetryPolicy::NonRepeatable,
        rpc == Rpc::AuthDisable ==> r == RetryPolicy::NonRepeatable,
        rpc == Rpc::RoleAdd ==> r == RetryPolicy::NonRepeatable,
        rpc == Rpc::RoleDelete ==> r == RetryPolicy::NonRepeatable,
        rpc == Rpc::RoleGrantPermission ==> r == RetryPolicy::NonRepeatable,
        rpc == Rpc::RoleRevokePermission ==> r == RetryPolicy::NonRepeatable,
        rpc == Rpc::UserAdd ==> r == RetryPolicy::NonRepeatable,
        rpc == Rpc::UserDelete ==> r == RetryPolicy::NonRepeatable,
        rpc == Rpc::UserChangePassword ==> r == RetryPolicy::NonRepeatable,
        rpc == Rpc::UserGrantRole ==> r == RetryPolicy::NonRepeatable,
        rpc == Rpc::UserRevokeRole ==> r == RetryPolicy::NonRepeatable,
        rpc == Rpc::Defragment ==> r == RetryPolicy::NonRepeatable,
        rpc == Rpc::MemberAdd ==> r == RetryPolicy::NonRepeatable,
        rpc == Rpc::MemberRemove ==> r == RetryPolicy::NonRepeatable,
        rpc == Rpc::MemberUpdate ==> r == RetryPolicy::NonRepeatable,
        rpc == Rpc::MemberPromote ==> r == RetryPolicy::NonRepeatable,
        rpc == Rpc::Campaign ==> r == RetryPolicy::NonRepeatable,
        rpc == Rpc::Proclaim ==> r == RetryPolicy::NonRepeatable,
        rpc == Rpc::Resign ==> r == RetryPolicy::NonRepeatable,
{
}

/// Every RPC that only reads, or that may be repeated without harm, is repeatable.
pub proof fn law_reads_are_repeatable(rpc: Rpc, r: RetryPolicy)
    requires
        call_ensures(Rpc::policy, (rpc,), r),
    ensures
        rpc == Rpc::Get ==> r == RetryPolicy::Repeatable,
        rpc == Rpc::LeaseGrant ==> r == RetryPolicy::Repeatable,
        rpc == Rpc::LeaseRevoke ==> r == RetryPolicy::Repeatable,
        rpc == Rpc::LeaseTimeToLive ==> r == RetryPolicy::Repeatable,
        rpc == Rpc::Leases ==> r == RetryPolicy::Repeatable,
        rpc == Rpc::Unlock ==> r == RetryPolicy::Repeatable,
        rpc == Rpc::RoleGet ==> r == RetryPolicy::Repeatable,
        rpc == Rpc::RoleList ==> r == RetryPolicy::Repeatable,
        rpc == Rpc::UserGet ==> r == RetryPolicy::Repeatable,
        rpc == Rpc::UserList ==> r == RetryPolicy::Repeatable,
        rpc == Rpc::Alarm ==> r == RetryPolicy::Repeatable,
        rpc == Rpc::Status ==> r == RetryPolicy::Repeatable,
        rpc == Rpc::Hash ==> r == RetryPolicy::Repeatable,
        rpc == Rpc::HashKv ==> r == RetryPolicy::Repeatable,
        rpc == Rpc::Snapshot ==> r == RetryPolicy::Repeatable,
        rpc == Rpc::MemberList ==> r == RetryPolicy::Repeatable,
        rpc == Rpc::MoveLeader ==> r == RetryPolicy::Repeatable,
        rpc == Rpc::Leader ==> r == RetryPolicy::Repeatable,
        rpc == Rpc::Observe ==> r == RetryPolicy::Repeatable,
{
}

/// An RPC is run under its own policy, within the client's budget of attempts, and may
/// refresh the token exactly if the client has credentials.
pub proof fn law_rpc_runs_under_its_policy(
    client: Client,
    rpc: Rpc,
    policy: RetryPolicy,
    run: RetryRun,
)
    requires
        call_ensures(Rpc::policy, (rpc,), policy),
        call_ensures(Client::run_failover, (&client, rpc), run),
    ensures
        run.policy == policy,
        run.reauth <==> client.options.user is Some,
        run.attempt == 0,
        client.retry.max_attempts >= 1 ==> run.max == client.retry.max_attempts,
        client.retry.max_attempts == 0 ==> run.max == 1,
{
}

/// A write is applied at most once: a client sends one of its mutating RPCs again only
/// after a rejected token, or after an error that proves that the attempt before was
/// never applied.
pub proof fn law_client_sends_a_write_again_only_if_not_applied<T>(
    client: Client,
    rpc: Rpc,
    begun: RetryRun,
    run: &mut RetryRun,
    res: Result<T, Error>,
    step: RetryStep<T>,
)
    requires
        rpc == Rpc::Put || rpc == Rpc::Delete || rpc == Rpc::Compact || rpc == Rpc::Txn || rpc
            == Rpc::Lock || rpc == Rpc::AuthEnable || rpc == Rpc::AuthDisable || rpc == Rpc::RoleAdd
            || rpc == Rpc::RoleDelete || rpc == Rpc::RoleGrantPermission || rpc
            == Rpc::RoleRevokePermission || rpc == Rpc::UserAdd || rpc == Rpc::UserDelete || rpc
            == Rpc::UserChangePassword || rpc == Rpc::UserGrantRole || rpc == Rpc::UserRevokeRole
            || rpc == Rpc::Defragment || rpc == Rpc::MemberAdd || rpc == Rpc::MemberRemove || rpc
            == Rpc::MemberUpdate || rpc == Rpc::MemberPromote || rpc == Rpc::Campaign || rpc
            == Rpc::Proclaim || rpc == Rpc::Resign,
        call_ensures(Client::run_failover, (&client, rpc), begun),
        old(run).policy == begun.policy,
        old(run).attempt < old(run).max,
        call_ensures(RetryRun::on_result::<T>, (run, res), step),
        step is Attempt || step is RefreshThenAttempt,
    ensures
        res matches Err(Error::GRpcStatus(status)) && {
            ||| step is RefreshThenAttempt && token_rejected(status)
            ||| step is Attempt && status.code == Code::Unavailable && refused_or_unconnected(
                status,
            )
        },
{
    lemma_reaction(res->Err_0, old(run).policy);
}

/// New options have nothing set, but that idle connections are kept alive.
pub proof fn law_new_options(r: ConnectOptions)
    requires
        call_ensures(ConnectOptions::new, (), r),
    ensures
        nothing_set(r),
        r.keep_alive_while_idle,
{
}

/// Nothing is set: no user, no timeout, no TLS, no keep-alive, and the failover as the
/// endpoints suggest.
pub open spec fn nothing_set(options: ConnectOptions) -> bool {
    &&& options.user is None
    &&& options.keep_alive is None
    &&& options.timeout is None
    &&& options.connect_timeout is None
    &&& options.tcp_keepalive is None
    &&& options.tls is None
    &&& !options.otls
    &&& !options.require_leader
    &&& options.max_retries is None
    &&& options.retry_backoff is None
    &&& options.watch_reconnect is None
    &&& options.lease_keepalive_reconnect is None
}

/// Default options have nothing set at all.
pub proof fn law_default_options(r: ConnectOptions)
    requires
        call_ensures(<ConnectOptions as Default>::default, (), r),
    ensures
        nothing_set(r),
        !r.keep_alive_while_idle,
{
}

/// The options agree but for the credentials.
pub open spec fn same_but_user(a: ConnectOptions, b: ConnectOptions) -> bool {
    &&& a.keep_alive == b.keep_alive
    &&& a.keep_alive_while_idle == b.keep_alive_while_idle
    &&& a.timeout == b.timeout
    &&& a.connect_timeout == b.connect_timeout
    &&& a.tcp_keepalive == b.tcp_keepalive
    &&& a.tls == b.tls
    &&& a.otls == b.otls
    &&& a.require_leader == b.require_leader
    &&& a.max_retries == b.max_retries
    &&& a.retry_backoff == b.retry_backoff
    &&& a.watch_reconnect == b.watch_reconnect
    &&& a.lease_keepalive_reconnect == b.lease_keepalive_reconnect
}

/// Cloned options are the same ones.
pub proof fn law_options_clone(options: ConnectOptions, r: ConnectOptions)
    requires
        call_ensures(<ConnectOptions as Clone>::clone, (&options,), r),
    ensures
        r.user == options.user,
        same_but_user(r, options),
{
}

/// Each option that is set sets what it names and nothing else: the credentials.
pub proof fn law_option_user(o: ConnectOptions, name: String, password: String, r: ConnectOptions)
    requires
        call_ensures(ConnectOptions::with_user, (o, name, password), r),
    ensures
        r.user == Some((name, password)),
        same_but_user(r, o),
{
}

/// Each option that is set sets what it names and nothing else: TLS.
pub proof fn law_option_tls(o: ConnectOptions, tls: ClientTlsConfig, r: ConnectOptions)
    requires
        call_ensures(ConnectOptions::with_tls, (o, tls), r),
    ensures
        r.tls == Some(tls),
        r == (ConnectOptions { tls: r.tls, ..o }),
{
}

/// Each option that is set sets what it names and nothing else: the OpenSSL connector.
pub proof fn law_option_openssl(o: ConnectOptions, r: ConnectOptions)
    requires
        call_ensures(ConnectOptions::with_openssl_tls, (o,), r),
    ensures
        r.otls,
        r == (ConnectOptions { otls: r.otls, ..o }),
{
}

/// Each option that is set sets what it names and nothing else: HTTP2 keep-alive.
pub proof fn law_option_keep_alive(
    o: ConnectOptions,
    interval: Duration,
    timeout: Duration,
    r: ConnectOptions,
)
    requires
        call_ensures(ConnectOptions::with_keep_alive, (o, interval, timeout), r),
    ensures
        r.keep_alive matches Some(k) && k.0 == interval && k.1 == timeout,
        r == (ConnectOptions { keep_alive: r.keep_alive, ..o }),
{
}

/// Each option that is set sets what it names and nothing else: the request timeout.
pub proof fn law_option_timeout(o: ConnectOptions, timeout: Duration, r: ConnectOptions)
    requires
        call_ensures(ConnectOptions::with_timeout, (o, timeout), r),
    ensures
        r.timeout == Some(timeout),
        r == (ConnectOptions { timeout: r.timeout, ..o }),
{
}

/// Each option that is set sets what it names and nothing else: the connect timeout.
pub proof fn law_option_connect_timeout(o: ConnectOptions, timeout: Duration, r: ConnectOptions)
    requires
        call_ensures(ConnectOptions::with_connect_timeout, (o, timeout), r),
    ensures
        r.connect_timeout == Some(timeout),
        r == (ConnectOptions { connect_timeout: r.connect_timeout, ..o }),
{
}

/// Each option that is set sets what it names and nothing else: TCP keepalive.
pub proof fn law_option_tcp_keepalive(o: ConnectOptions, keepalive: Duration, r: ConnectOptions)
    requires
        call_ensures(ConnectOptions::with_tcp_keepalive, (o, keepalive), r),
    ensures
        r.tcp_keepalive == Some(keepalive),
        r == (ConnectOptions { tcp_keepalive: r.tcp_keepalive, ..o }),
{
}

/// Each option that is set sets what it names and nothing else: pings while idle.
pub proof fn law_option_while_idle(o: ConnectOptions, enabled: bool, r: ConnectOptions)
    requires
        call_ensures(ConnectOptions::with_keep_alive_while_idle, (o, enabled), r),
    ensures
        r.keep_alive_while_idle == enabled,
        r == (ConnectOptions { keep_alive_while_idle: r.keep_alive_while_idle, ..o }),
{
}

/// Each option that is set sets what it names and nothing else: the leader requirement.
pub proof fn law_option_require_leader(o: ConnectOptions, required: bool, r: ConnectOptions)
    requires
        call_ensures(ConnectOptions::with_require_leader, (o, required), r),
    ensures
        r.require_leader == required,
        r == (ConnectOptions { require_leader: r.require_leader, ..o }),
{
}

/// Each option that is set sets what it names and nothing else: the number of attempts.
pub proof fn law_option_retries(o: ConnectOptions, attempts: u32, r: ConnectOptions)
    requires
        call_ensures(ConnectOptions::with_retries, (o, attempts), r),
    ensures
        r.max_retries == Some(attempts),
        r == (ConnectOptions { max_retries: r.max_retries, ..o }),
{
}

/// Each option that is set sets what it names and nothing else: the base wait.
pub proof fn law_option_backoff(o: ConnectOptions, wait: Duration, r: ConnectOptions)
    requires
        call_ensures(ConnectOptions::with_retry_backoff, (o, wait), r),
    ensures
        r.retry_backoff == Some(wait),
        r == (ConnectOptions { retry_backoff: r.retry_backoff, ..o }),
{
}

/// Each option that is set sets what it names and nothing else: watch reconnection.
pub proof fn law_option_watch_reconnect(o: ConnectOptions, enabled: bool, r: ConnectOptions)
    requires
        call_ensures(ConnectOptions::with_watch_reconnect, (o, enabled), r),
    ensures
        r.watch_reconnect == Some(enabled),
        r == (ConnectOptions { watch_reconnect: r.watch_reconnect, ..o }),
{
}

/// Each option that is set sets what it names and nothing else: lease reconnection.
pub proof fn law_option_lease_reconnect(o: ConnectOptions, enabled: bool, r: ConnectOptions)
    requires
        call_ensures(ConnectOptions::with_lease_keepalive_reconnect, (o, enabled), r),
    ensures
        r.lease_keepalive_reconnect == Some(enabled),
        r == (ConnectOptions { lease_keepalive_reconnect: r.lease_keepalive_reconnect, ..o }),
{
}

/// The options given; or, if none were given, options with nothing set at all.
pub open spec fn chosen(options: Option<ConnectOptions>, used: ConnectOptions) -> bool {
    match options {
        Some(o) => used.user == o.user && same_but_user(used, o),
        None => nothing_set(used) && !used.keep_alive_while_idle,
    }
}

/// The client's failover follows its options, and where they are silent its number of
/// endpoints: two attempts per endpoint and at least five, 25 milliseconds of base wait,
/// and streams that reconnect if there is more than one attempt. Its RPCs and its
/// streams share it.
pub open spec fn fails_over(client: Client, endpoints: usize) -> bool {
    let options = client.options;
    let retry = client.retry;
    &&& options.max_retries matches Some(n) ==> retry.max_attempts == n
    &&& options.max_retries is None && 2 * endpoints <= u32::MAX ==> {
        &&& retry.max_attempts >= 5
        &&& retry.max_attempts >= 2 * endpoints
        &&& retry.max_attempts == 5 || retry.max_attempts == 2 * endpoints
    }
    &&& options.max_retries is None ==> retry.max_attempts == (if 2 * endpoints < 5 {
        5
    } else {
        2 * endpoints
    }) % 0x1_0000_0000
    &&& options.retry_backoff matches Some(wait) ==> retry.backoff_wait == wait
    &&& options.retry_backoff is None ==> nanos(retry.backoff_wait) == 25_000_000
    &&& options.watch_reconnect matches Some(on) ==> retry.watch_reconnect == on
    &&& options.watch_reconnect is None ==> (retry.watch_reconnect <==> retry.max_attempts > 1)
    &&& options.lease_keepalive_reconnect matches Some(on) ==> retry.lease_reconnect == on
    &&& options.lease_keepalive_reconnect is None ==> (retry.lease_reconnect
        <==> retry.max_attempts > 1)
    &&& endpoints > 0 ==> call_ensures(AtomicUsize::new, (endpoints,), *retry.endpoint_count)
    &&& endpoints == 0 ==> call_ensures(AtomicUsize::new, (1usize,), *retry.endpoint_count)
    &&& client.watch.retry == retry
    &&& client.lease.retry == retry
}

/// Once its number of endpoints is known a client gets its failover, and keeps all else.
pub proof fn law_retry_config_is_installed(client: Client, endpoints: usize, r: Client)
    requires
        call_ensures(Client::with_retry_config, (client, endpoints), r),
    ensures
        fails_over(r, endpoints),
        r.options == client.options,
        r.managed == client.managed,
        r.auth_token == client.auth_token,
        r.watch.max_decoding_message_size == client.watch.max_decoding_message_size,
{
}

/// A client that was connected manages its endpoints, one per URL and in their order,
/// each built from its URL with the options; it has the options, no token yet, and the
/// failover for that many endpoints.
pub proof fn law_connected_client(
    urls: Vec<String>,
    options: Option<ConnectOptions>,
    support: TlsSupport,
    client: Client,
    endpoints: Vec<Endpoint>,
)
    requires
        call_ensures(Client::connect, (&urls, options, support), Ok((client, endpoints))),
    ensures
        urls@.len() > 0,
        endpoints@.len() == urls@.len(),
        forall|i: int|
            0 <= i < urls@.len() ==> stands_for(
                #[trigger] endpoints@[i],
                urls@[i]@,
                client.options,
                support,
            ),
        client.managed,
        chosen(options, client.options),
        client.auth_token is None,
        client.watch.max_decoding_message_size is None,
        urls@.len() <= usize::MAX ==> fails_over(client, urls@.len() as usize),
{
    assert forall|i: int| 0 <= i < urls@.len() implies stands_for(
        #[trigger] endpoints@[i],
        urls@[i]@,
        client.options,
        support,
    ) by {
        lemma_builds(urls@[i]@, client.options, support, Ok(endpoints@[i]));
    }
}

/// A URL has a scheme exactly if it begins with one of the two.
proof fn lemma_has_scheme(url: Seq<char>)
    ensures
        begins(url, "http://"@) <==> crate::text::has_prefix(url, "http://"@),
        begins(url, "https://"@) <==> crate::text::has_prefix(url, "https://"@),
{
    crate::laws::endpoint::lemma_begins(url, "http://"@);
    crate::laws::endpoint::lemma_begins(url, "https://"@);
}

/// A client needs an endpoint: with no URL, connecting fails with invalid arguments.
pub proof fn law_no_urls_no_client(
    urls: Vec<String>,
    options: Option<ConnectOptions>,
    support: TlsSupport,
    r: Result<(Client, Vec<Endpoint>), Error>,
)
    requires
        urls@.len() == 0,
        call_ensures(Client::connect, (&urls, options, support), r),
    ensures
        r matches Err(Error::InvalidArgs(message)) && message@ == "empty endpoints"@,
{
}

/// Connecting to URLs fails only if one of them builds no endpoint, with the error of the
/// first such URL.
pub proof fn law_connect_fails_with_the_first_bad_url(
    urls: Vec<String>,
    options: Option<ConnectOptions>,
    support: TlsSupport,
    e: Error,
) -> (found: (int, ConnectOptions))
    requires
        urls@.len() > 0,
        call_ensures(Client::connect, (&urls, options, support), Err(e)),
    ensures
        0 <= found.0 < urls@.len(),
        chosen(options, found.1),
        fails_with(urls@[found.0]@, found.1, support, e),
        forall|j: int|
            0 <= j < found.0 ==> !contradicts((#[trigger] urls@[j])@, found.1, support)
                && crate::endpoint::parsed_uri(completed(urls@[j]@, found.1, support)) is Some,
{
    let used = crate::client::or_default(options);
    let i = choose|i: int| #[trigger]
        crate::client::first_failure(urls@, used, support, i, e);
    lemma_builds(urls@[i]@, used, support, Err(e));
    let before = choose|before: Seq<Endpoint>| #[trigger]
        crate::client::all_build(urls@.take(i), used, support, before);
    assert forall|j: int| 0 <= j < i implies !contradicts((#[trigger] urls@[j])@, used, support)
        && crate::endpoint::parsed_uri(completed(urls@[j]@, used, support)) is Some by {
        assert(urls@.take(i)[j] == urls@[j]);
        lemma_builds(urls@[j]@, used, support, Ok(before[j]));
    }
    (i, used)
}

/// A client over a channel that it was given does not manage the endpoints, and fails
/// over as if it had one.
pub proof fn law_client_of_a_channel(options: Option<ConnectOptions>, client: Client)
    requires
        call_ensures(Client::from_channel, (options,), client),
    ensures
        !client.managed,
        chosen(options, client.options),
        client.auth_token is None,
        client.watch.max_decoding_message_size is None,
        fails_over(client, 1),
{
}

/// A cloned client is the same one, with the same shared endpoint count.
pub proof fn law_client_clone(client: Client, r: Client)
    requires
        call_ensures(<Client as Clone>::clone, (&client,), r),
    ensures
        r.watch == client.watch,
        r.lease == client.lease,
        r.options == client.options,
        r.managed == client.managed,
        r.auth_token == client.auth_token,
        r.retry == client.retry,
        r.retry.endpoint_count == client.retry.endpoint_count,
{
}

/// A client's streams are set up as the client says.
pub proof fn law_stream_clients(client: Client, watch: WatchClient, lease: LeaseClient)
    requires
        call_ensures(Client::watch_client, (&client,), watch),
        call_ensures(Client::lease_client, (&client,), lease),
    ensures
        watch.retry == client.watch.retry,
        watch.max_decoding_message_size == client.watch.max_decoding_message_size,
        lease.retry == client.lease.retry,
{
}

/// An endpoint is added only by a client that manages its endpoints, with the client's
/// options, and by the text of its URL.
pub proof fn law_added_endpoint(client: Client, url: &str, support: TlsSupport, e: Endpoint)
    requires
        call_ensures(Client::add_endpoint, (&client, url, support), Ok(e)),
    ensures
        client.managed,
        stands_for(e, url@, client.options, support),
{
    lemma_builds(url@, client.options, support, Ok(e));
}

/// An unmanaged client adds and removes no endpoint. It says so, unless the text is no
/// endpoint to begin with.
pub proof fn law_unmanaged_client_keeps_its_channel(
    client: Client,
    url: &str,
    support: TlsSupport,
    added: Result<Endpoint, Error>,
    removed: Result<Uri, Error>,
)
    requires
        !client.managed,
        call_ensures(Client::add_endpoint, (&client, url, support), added),
        call_ensures(Client::remove_endpoint, (&client, url, support), removed),
    ensures
        added is Err,
        removed is Err,
        removed matches Err(e) ==> e is EndpointsNotManaged || e is InvalidUri,
        added matches Err(e) ==> {
            ||| e is EndpointsNotManaged && !contradicts(url@, client.options, support)
                && removed == Err::<Uri, Error>(Error::EndpointsNotManaged)
            ||| fails_with(url@, client.options, support, e)
        },
{
    if added->Err_0 is EndpointsNotManaged {
        let built = choose|built: Endpoint| #[trigger]
            crate::endpoint::builds(url@, client.options, support, Ok(built));
        lemma_builds(url@, client.options, support, Ok(built));
    } else {
        lemma_builds(url@, client.options, support, added);
    }
}

/// A managing client adds what the text builds, and fails as building it does.
pub proof fn law_managed_client_adds_what_builds(
    client: Client,
    url: &str,
    support: TlsSupport,
    added: Result<Endpoint, Error>,
    uri: Result<Uri, Error>,
)
    requires
        client.managed,
        call_ensures(Client::add_endpoint, (&client, url, support), added),
        call_ensures(endpoint_uri, (url, &client.options, support), uri),
    ensures
        added matches Ok(e) ==> uri == Ok::<Uri, Error>(endpoint_settings(e).uri),
        added matches Err(e) ==> fails_with(url@, client.options, support, e),
{
    lemma_builds(url@, client.options, support, added);
}

/// The text that added an endpoint removes it.
pub proof fn law_removed_endpoint_is_the_added_one(
    client: Client,
    url: &str,
    support: TlsSupport,
    added: Endpoint,
    removed: Result<Uri, Error>,
)
    requires
        call_ensures(Client::add_endpoint, (&client, url, support), Ok(added)),
        call_ensures(Client::remove_endpoint, (&client, url, support), removed),
    ensures
        removed == Ok::<Uri, Error>(endpoint_settings(added).uri),
{
}

/// A managing client removes the endpoint at the URI of the text.
pub proof fn law_removed_endpoint_is_named(
    client: Client,
    url: &str,
    support: TlsSupport,
    uri: Result<Uri, Error>,
    removed: Result<Uri, Error>,
)
    requires
        client.managed,
        call_ensures(endpoint_uri, (url, &client.options, support), uri),
        call_ensures(Client::remove_endpoint, (&client, url, support), removed),
    ensures
        removed == uri,
{
}

/// An endpoint that was inserted is counted, in the counter that all of the client
/// shares.
pub proof fn law_inserted_endpoint_is_counted(client: Client, r: Result<(), Error>) -> (before:
    usize)
    requires
        call_ensures(Client::endpoint_inserted, (&client, Ok::<(), String>(())), r),
    ensures
        r is Ok,
        call_ensures(
            AtomicUsize::fetch_add,
            (&*client.retry.endpoint_count, 1usize, std::sync::atomic::Ordering::Relaxed),
            before,
        ),
{
    choose|before: usize| #[trigger]
        call_ensures(
            AtomicUsize::fetch_add,
            (&*client.retry.endpoint_count, 1usize, std::sync::atomic::Ordering::Relaxed),
            before,
        )
}

/// An endpoint that was dropped is no longer counted.
pub proof fn law_dropped_endpoint_is_counted(client: Client, r: Result<(), Error>) -> (before:
    Result<usize, usize>)
    requires
        call_ensures(Client::endpoint_dropped, (&client, Ok::<(), String>(())), r),
    ensures
        r is Ok,
        call_ensures(
            AtomicUsize::fetch_update,
            (
                &*client.retry.endpoint_count,
                std::sync::atomic::Ordering::Relaxed,
                std::sync::atomic::Ordering::Relaxed,
                count_without_one,
            ),
            before,
        ),
{
    choose|before: Result<usize, usize>| #[trigger]
        call_ensures(
            AtomicUsize::fetch_update,
            (
                &*client.retry.endpoint_count,
                std::sync::atomic::Ordering::Relaxed,
                std::sync::atomic::Ordering::Relaxed,
                count_without_one,
            ),
            before,
        )
}

/// A failure to insert or to drop an endpoint is told, with its cause.
pub proof fn law_endpoint_failures_are_told(
    client: Client,
    cause: String,
    inserted: Result<(), Error>,
    dropped: Result<(), Error>,
)
    requires
        call_ensures(Client::endpoint_inserted, (&client, Err::<(), String>(cause)), inserted),
        call_ensures(Client::endpoint_dropped, (&client, Err::<(), String>(cause)), dropped),
    ensures
        inserted matches Err(Error::EndpointError(m)) && m@ == "failed to add endpoint because of "@
            + cause@,
        dropped matches Err(Error::EndpointError(m)) && m@
            == "failed to remove endpoint because of "@ + cause@,
{
}

/// An authentication sends the credentials it was given, and fails over like a read
/// within the client's budget.
pub proof fn law_client_authenticates(client: Client, user: String, password: String, run: AuthRun)
    requires
        call_ensures(Client::do_authenticate, (&client, user, password), run),
    ensures
        run.name == user,
        run.password == password,
        run.run.policy == RetryPolicy::Repeatable,
        !run.run.reauth,
        run.run.attempt == 0,
        client.retry.max_attempts >= 1 ==> run.run.max == client.retry.max_attempts,
        client.retry.max_attempts == 0 ==> run.run.max == 1,
{
}

/// All of the client but its token and its options.
pub open spec fn same_but_session(a: Client, b: Client) -> bool {
    &&& a.watch == b.watch
    &&& a.lease == b.lease
    &&& a.managed == b.managed
    &&& a.retry == b.retry
}

/// Refreshing the token authenticates with the client's credentials and keeps the token
/// until then; without credentials there is nothing to do and no token.
pub proof fn law_client_refresh(client: &mut Client, step: AuthStep)
    requires
        call_ensures(Client::refresh_token, (client,), step),
    ensures
        old(client).options.user matches Some((name, password)) ==> {
            &&& step == AuthStep::Authenticate(name, password)
            &&& final(client).auth_token == old(client).auth_token
        },
        old(client).options.user is None ==> {
            &&& !(step is Authenticate)
            &&& final(client).auth_token is None
        },
        final(client).options == old(client).options,
        same_but_session(*final(client), *old(client)),
{
}

/// A new token replaces the old one; a failure is passed on and changes nothing.
pub proof fn law_client_token_refreshed(
    client: &mut Client,
    outcome: Result<Token, Error>,
    r: Result<(), Error>,
)
    requires
        call_ensures(Client::token_refreshed, (client, outcome), r),
    ensures
        outcome matches Ok(token) ==> r is Ok && final(client).auth_token == Some(token),
        outcome matches Err(e) ==> r == Err::<(), Error>(e) && final(client).auth_token == old(client).auth_token,
        final(client).options == old(client).options,
        same_but_session(*final(client), *old(client)),
{
}

/// An update of the user authenticates with the new credentials before anything changes;
/// without new ones, token and credentials are dropped.
pub proof fn law_client_user_update(
    client: &mut Client,
    user: Option<(String, String)>,
    step: AuthStep,
)
    requires
        call_ensures(Client::update_user, (client, &user), step),
    ensures
        user matches Some((name, password)) ==> {
            &&& step == AuthStep::Authenticate(name, password)
            &&& *final(client) == *old(client)
        },
        user is None ==> {
            &&& !(step is Authenticate)
            &&& final(client).auth_token is None
            &&& final(client).options.user is None
        },
        same_but_user(final(client).options, old(client).options),
        same_but_session(*final(client), *old(client)),
{
}

/// The new user's credentials and token are kept exactly if the authentication
/// succeeded; otherwise nothing changes and the failure is passed on.
pub proof fn law_client_user_updated(
    client: &mut Client,
    user: (String, String),
    outcome: Result<Token, Error>,
    r: Result<(), Error>,
)
    requires
        call_ensures(Client::user_updated, (client, user, outcome), r),
    ensures
        outcome matches Ok(token) ==> {
            &&& r is Ok
            &&& final(client).auth_token == Some(token)
            &&& final(client).options.user == Some(user)
        },
        outcome matches Err(e) ==> {
            &&& r == Err::<(), Error>(e)
            &&& final(client).auth_token == old(client).auth_token
            &&& final(client).options.user == old(client).options.user
        },
        same_but_user(final(client).options, old(client).options),
        same_but_session(*final(client), *old(client)),
{
}

/// A member's URLs keep their order and their number; one with a scheme stays as it is,
/// one without gets `http`.
pub proof fn law_member_urls(urls: Vec<String>, r: Vec<String>)
    requires
        call_ensures(member_urls, (&urls,), r),
    ensures
        r@.len() == urls@.len(),
        forall|i: int|
            0 <= i < urls@.len() && has_scheme(urls@[i]@) ==> (#[trigger] r@[i])@ == urls@[i]@,
        forall|i: int|
            0 <= i < urls@.len() && !has_scheme(urls@[i]@) ==> (#[trigger] r@[i])@ == "http://"@
                + urls@[i]@,
{
    let out = crate::client::texts(r@);
    let texts = crate::client::texts(urls@);
    let schemed = texts.map_values(|url: Seq<char>| crate::client::with_scheme(url));
    assert(out == schemed);
    assert(out.len() == schemed.len());
    assert forall|i: int| 0 <= i < urls@.len() implies (#[trigger] r@[i])@
        == crate::client::with_scheme(urls@[i]@) by {
        assert(out[i] == schemed[i]);
    }
    assert forall|i: int| 0 <= i < urls@.len() && has_scheme(urls@[i]@) implies (#[trigger] r@[i])@
        == urls@[i]@ by {
        lemma_has_scheme(urls@[i]@);
    }
    assert forall|i: int| 0 <= i < urls@.len() && !has_scheme(urls@[i]@) implies (
    #[trigger] r@[i])@ == "http://"@ + urls@[i]@ by {
        lemma_has_scheme(urls@[i]@);
    }
}

/// A client can be connected to any number of URLs, as long as twice their number can be
/// counted where that decides the number of attempts.
pub proof fn law_client_can_connect(
    urls: Vec<String>,
    options: Option<ConnectOptions>,
    support: TlsSupport,
    client: Client,
    endpoints: usize,
)
    ensures
        2 * urls@.len() <= usize::MAX ==> call_requires(Client::connect, (&urls, options, support)),
        options matches Some(o) && o.max_retries is Some ==> call_requires(
            Client::connect,
            (&urls, options, support),
        ),
        2 * endpoints <= usize::MAX ==> call_requires(
            Client::with_retry_config,
            (client, endpoints),
        ),
        client.options.max_retries is Some ==> call_requires(
            Client::with_retry_config,
            (client, endpoints),
        ),
{
}

} // verus!
