//! The client: its connect options, its endpoints, and how each RPC is retried.

use crate::endpoint::{
    build_endpoint, builds, clone_tls, endpoint_settings, endpoint_uri, full_url,
    law_url_leads_to_its_endpoint, parsed_uri, TlsSupport, HTTPS_PREFIX, HTTP_PREFIX,
};
use crate::error::Error;
use crate::failover::{
    counted_down, counted_up, first_count, starts_at, was_read, RetryConfig, RetryPolicy,
};
use crate::retry::{new_run, RetryRun};
use crate::rpc::lease::LeaseClient;
use crate::rpc::watch::WatchClient;
use crate::session::{
    auth_step, begin_refresh, clone_creds, creds_after, new_auth, store_token, stored,
    token_after, token_before, AuthRun, AuthStep, Token,
};
use crate::text::{has_prefix, joined, str_starts_with};
use crate::time::nanos;
use core::time::Duration;
use http::uri::Uri;
use tonic::transport::{ClientTlsConfig, Endpoint};
use vstd::prelude::*;

verus! {

/// Options for `Connect` operation.
#[derive(Debug)]
pub struct ConnectOptions {
    /// user is a pair values of name and password
    pub user: Option<(String, String)>,
    /// HTTP2 keep-alive: (keep_alive_interval, keep_alive_timeout)
    pub keep_alive: Option<(Duration, Duration)>,
    /// Whether send keep alive pings even there are no active streams.
    pub keep_alive_while_idle: bool,
    /// Apply a timeout to each gRPC request.
    pub timeout: Option<Duration>,
    /// Apply a timeout to connecting to the endpoint.
    pub connect_timeout: Option<Duration>,
    /// TCP keepalive.
    pub tcp_keepalive: Option<Duration>,
    /// TLS options.
    pub tls: Option<ClientTlsConfig>,
    /// An OpenSSL connector is set up for the channel.
    pub otls: bool,
    /// Require a leader to be present for the operation to complete.
    pub require_leader: bool,
    /// Max total attempts per unary RPC. `None` derives from the endpoint count.
    pub max_retries: Option<u32>,
    /// Base wait between retry rounds. The jitter around it is up to the caller.
    pub retry_backoff: Option<Duration>,
    /// Auto-reconnect a broken watch stream. Defaults to the retry-enabled state.
    pub watch_reconnect: Option<bool>,
    /// Auto-reconnect a broken lease keep-alive stream. Defaults likewise.
    pub lease_keepalive_reconnect: Option<bool>,
}

impl Clone for ConnectOptions {
    fn clone(&self) -> (r: Self)
        ensures
            r == *self,
    {
        ConnectOptions {
            user: clone_creds(&self.user),
            keep_alive: self.keep_alive,
            keep_alive_while_idle: self.keep_alive_while_idle,
            timeout: self.timeout,
            connect_timeout: self.connect_timeout,
            tcp_keepalive: self.tcp_keepalive,
            tls: match &self.tls {
                Some(tls) => Some(clone_tls(tls)),
                None => None,
            },
            otls: self.otls,
            require_leader: self.require_leader,
            max_retries: self.max_retries,
            retry_backoff: self.retry_backoff,
            watch_reconnect: self.watch_reconnect,
            lease_keepalive_reconnect: self.lease_keepalive_reconnect,
        }
    }
}

impl Default for ConnectOptions {
    /// Nothing is set, not even that idle connections are kept alive.
    fn default() -> (r: Self)
        ensures
            r == blank_options(false),
    {
        ConnectOptions {
            user: None,
            keep_alive: None,
            keep_alive_while_idle: false,
            timeout: None,
            connect_timeout: None,
            tcp_keepalive: None,
            tls: None,
            otls: false,
            require_leader: false,
            max_retries: None,
            retry_backoff: None,
            watch_reconnect: None,
            lease_keepalive_reconnect: None,
        }
    }
}

/// Options with nothing set but whether idle connections are kept alive.
pub open spec fn blank_options(keep_alive_while_idle: bool) -> ConnectOptions {
    ConnectOptions {
        user: None,
        keep_alive: None,
        keep_alive_while_idle,
        timeout: None,
        connect_timeout: None,
        tcp_keepalive: None,
        tls: None,
        otls: false,
        require_leader: false,
        max_retries: None,
        retry_backoff: None,
        watch_reconnect: None,
        lease_keepalive_reconnect: None,
    }
}

impl ConnectOptions {
    /// Sets the name and the password to authenticate with.
    pub fn with_user(self, name: String, password: String) -> (r: Self)
        ensures
            r == (ConnectOptions { user: Some((name, password)), ..self }),
    {
        let mut options = self;
        options.user = Some((name, password));
        options
    }

    /// Sets TLS options.
    ///
    /// Notes that this function have to work with `HTTPS` URLs.
    pub fn with_tls(self, tls: ClientTlsConfig) -> (r: Self)
        ensures
            r == (ConnectOptions { tls: Some(tls), ..self }),
    {
        let mut options = self;
        options.tls = Some(tls);
        options
    }

    /// Notes that the channel uses the OpenSSL implementation, which is set up where
    /// the channel is made.
    pub fn with_openssl_tls(self) -> (r: Self)
        ensures
            r == (ConnectOptions { otls: true, ..self }),
    {
        let mut options = self;
        options.otls = true;
        options
    }

    /// Enable HTTP2 keep-alive with `interval` and `timeout`.
    pub fn with_keep_alive(self, interval: Duration, timeout: Duration) -> (r: Self)
        ensures
            r == (ConnectOptions { keep_alive: Some((interval, timeout)), ..self }),
    {
        let mut options = self;
        options.keep_alive = Some((interval, timeout));
        options
    }

    /// Apply a timeout to each request.
    pub fn with_timeout(self, timeout: Duration) -> (r: Self)
        ensures
            r == (ConnectOptions { timeout: Some(timeout), ..self }),
    {
        let mut options = self;
        options.timeout = Some(timeout);
        options
    }

    /// Apply a timeout to connecting to the endpoint.
    pub fn with_connect_timeout(self, timeout: Duration) -> (r: Self)
        ensures
            r == (ConnectOptions { connect_timeout: Some(timeout), ..self }),
    {
        let mut options = self;
        options.connect_timeout = Some(timeout);
        options
    }

    /// Enable TCP keepalive.
    pub fn with_tcp_keepalive(self, tcp_keepalive: Duration) -> (r: Self)
        ensures
            r == (ConnectOptions { tcp_keepalive: Some(tcp_keepalive), ..self }),
    {
        let mut options = self;
        options.tcp_keepalive = Some(tcp_keepalive);
        options
    }

    /// Whether send keep alive pings even there are no active requests.
    /// If disabled, keep-alive pings are only sent while there are opened request/response streams.
    /// If enabled, pings are also sent when no streams are active.
    /// NOTE: Some implementations of gRPC server may send GOAWAY if there are too many pings.
    ///       This would be useful if you meet some error like `too many pings`.
    pub fn with_keep_alive_while_idle(self, enabled: bool) -> (r: Self)
        ensures
            r == (ConnectOptions { keep_alive_while_idle: enabled, ..self }),
    {
        let mut options = self;
        options.keep_alive_while_idle = enabled;
        options
    }

    /// Whether to enforce that a leader be present in the etcd cluster.
    pub fn with_require_leader(self, require_leader: bool) -> (r: Self)
        ensures
            r == (ConnectOptions { require_leader, ..self }),
    {
        let mut options = self;
        options.require_leader = require_leader;
        options
    }

    /// Sets the maximum number of attempts per unary RPC, counting the first
    /// try. On failure the client fails over to another endpoint. `0` or `1`
    /// disables retry. When unset, a default is derived from the endpoint count.
    ///
    /// Mutating RPCs are only retried when the request provably never reached a
    /// server, preserving write-at-most-once.
    ///
    /// Worst-case latency is about `max_attempts` times the per-request timeout
    /// plus backoff. The loop cannot interrupt a hung attempt, so pair failover
    /// with [`ConnectOptions::with_timeout`] to bound each try, otherwise a
    /// black-holed endpoint can stall the whole retry budget.
    pub fn with_retries(self, max_attempts: u32) -> (r: Self)
        ensures
            r == (ConnectOptions { max_retries: Some(max_attempts), ..self }),
    {
        let mut options = self;
        options.max_retries = Some(max_attempts);
        options
    }

    /// Sets the base wait between retry rounds. Defaults to 25ms. Backoff is applied
    /// once per quorum of attempts so retries sweep a quorum of endpoints quickly,
    /// then pause.
    pub fn with_retry_backoff(self, wait: Duration) -> (r: Self)
        ensures
            r == (ConnectOptions { retry_backoff: Some(wait), ..self }),
    {
        let mut options = self;
        options.retry_backoff = Some(wait);
        options
    }

    /// Enables or disables transparent watch-stream reconnection (default: on
    /// while retry is on). A broken watch resumes each active watch from the
    /// revision after the last one delivered.
    ///
    /// The reconnection task stops once no watches remain, so a watch stream
    /// whose watches are all cancelled must be re-created rather than reused if
    /// a new watch is needed after a disconnect.
    pub fn with_watch_reconnect(self, enabled: bool) -> (r: Self)
        ensures
            r == (ConnectOptions { watch_reconnect: Some(enabled), ..self }),
    {
        let mut options = self;
        options.watch_reconnect = Some(enabled);
        options
    }

    /// Enables or disables transparent lease keep-alive reconnection (default:
    /// on while retry is on). A lease that expired during an outage surfaces as
    /// a `ttl <= 0` response.
    ///
    /// Reconnection re-primes the lease when the stream is re-established, but
    /// renewal cadence stays driven by the caller pumping
    /// [`LeaseKeeper::keep_alive`]. The client does not auto-renew, nor reap a
    /// lease that expires while the stream itself stays healthy.
    ///
    /// [`LeaseKeeper::keep_alive`]: crate::rpc::lease::LeaseKeeper::keep_alive
    pub fn with_lease_keepalive_reconnect(self, enabled: bool) -> (r: Self)
        ensures
            r == (ConnectOptions { lease_keepalive_reconnect: Some(enabled), ..self }),
    {
        let mut options = self;
        options.lease_keepalive_reconnect = Some(enabled);
        options
    }

    /// Creates a `ConnectOptions`.
    pub fn new() -> (r: Self)
        ensures
            r == blank_options(true),
    {
        ConnectOptions {
            user: None,
            keep_alive: None,
            keep_alive_while_idle: true,
            timeout: None,
            connect_timeout: None,
            tcp_keepalive: None,
            tls: None,
            otls: false,
            require_leader: false,
            max_retries: None,
            retry_backoff: None,
            watch_reconnect: None,
            lease_keepalive_reconnect: None,
        }
    }
}

/// The unary RPCs of the client.
#[derive(Clone, Copy, Debug, PartialEq, Eq, Structural)]
pub enum Rpc {
    Put,
    Get,
    Delete,
    Compact,
    Txn,
    LeaseGrant,
    LeaseRevoke,
    LeaseTimeToLive,
    Leases,
    Lock,
    Unlock,
    AuthEnable,
    AuthDisable,
    RoleAdd,
    RoleDelete,
    RoleGet,
    RoleList,
    RoleGrantPermission,
    RoleRevokePermission,
    UserAdd,
    UserGet,
    UserList,
    UserDelete,
    UserChangePassword,
    UserGrantRole,
    UserRevokeRole,
    Alarm,
    Status,
    Defragment,
    Hash,
    HashKv,
    Snapshot,
    MemberAdd,
    MemberRemove,
    MemberUpdate,
    MemberPromote,
    MemberList,
    MoveLeader,
    Campaign,
    Proclaim,
    Leader,
    Observe,
    Resign,
}

/// The RPC may be repeated: it only reads, or repeating it does no harm.
pub open spec fn repeatable(rpc: Rpc) -> bool {
    ||| rpc == Rpc::Get
    ||| rpc == Rpc::LeaseGrant
    ||| rpc == Rpc::LeaseRevoke
    ||| rpc == Rpc::LeaseTimeToLive
    ||| rpc == Rpc::Leases
    ||| rpc == Rpc::Unlock
    ||| rpc == Rpc::RoleGet
    ||| rpc == Rpc::RoleList
    ||| rpc == Rpc::UserGet
    ||| rpc == Rpc::UserList
    ||| rpc == Rpc::Alarm
    ||| rpc == Rpc::Status
    ||| rpc == Rpc::Hash
    ||| rpc == Rpc::HashKv
    ||| rpc == Rpc::Snapshot
    ||| rpc == Rpc::MemberList
    ||| rpc == Rpc::MoveLeader
    ||| rpc == Rpc::Leader
    ||| rpc == Rpc::Observe
}

impl Rpc {
    /// Whether the RPC may be safely re-issued.
    pub fn policy(self) -> (r: RetryPolicy)
        ensures
            r == (if repeatable(self) {
                RetryPolicy::Repeatable
            } else {
                RetryPolicy::NonRepeatable
            }),
    {
        match self {
            Rpc::Get
            | Rpc::LeaseGrant
            | Rpc::LeaseRevoke
            | Rpc::LeaseTimeToLive
            | Rpc::Leases
            | Rpc::Unlock
            | Rpc::RoleGet
            | Rpc::RoleList
            | Rpc::UserGet
            | Rpc::UserList
            | Rpc::Alarm
            | Rpc::Status
            | Rpc::Hash
            | Rpc::HashKv
            | Rpc::Snapshot
            | Rpc::MemberList
            | Rpc::MoveLeader
            | Rpc::Leader
            | Rpc::Observe => RetryPolicy::Repeatable,
            _ => RetryPolicy::NonRepeatable,
        }
    }
}

/// The default number of attempts per RPC for a client with `endpoints` endpoints:
/// two per endpoint and at least five, as a 32-bit count.
pub open spec fn default_attempts(endpoints: nat) -> nat {
    (if 2 * endpoints < 5 {
        5nat
    } else {
        2 * endpoints
    }) % 0x1_0000_0000
}

/// The number of attempts per RPC: as the options say, or the default.
pub open spec fn attempts(options: ConnectOptions, endpoints: nat) -> nat {
    match options.max_retries {
        Some(n) => n as nat,
        None => default_attempts(endpoints),
    }
}

/// The config is the one that the options stand for, with `endpoints` endpoints.
/// Stream reconnection defaults to on whenever retry is on.
pub open spec fn config_for(retry: RetryConfig, options: ConnectOptions, endpoints: nat) -> bool {
    let retry_on = attempts(options, endpoints) > 1;
    &&& retry.max_attempts == attempts(options, endpoints)
    &&& match options.retry_backoff {
        Some(wait) => retry.backoff_wait == wait,
        None => nanos(retry.backoff_wait) == 25_000_000,
    }
    &&& retry.watch_reconnect == match options.watch_reconnect {
        Some(enabled) => enabled,
        None => retry_on,
    }
    &&& retry.lease_reconnect == match options.lease_keepalive_reconnect {
        Some(enabled) => enabled,
        None => retry_on,
    }
    &&& starts_at(*retry.endpoint_count, first_count(endpoints as usize))
}

/// The default number of attempts per RPC.
fn attempts_for(endpoints: usize) -> (r: u32)
    requires
        2 * endpoints <= usize::MAX,
    ensures
        r == default_attempts(endpoints as nat),
{
    let n: u64 = if 2 * endpoints < 5 {
        5
    } else {
        (2 * endpoints) as u64
    };
    assert(n as u32 == n % 0x1_0000_0000) by (bit_vector);
    n as u32
}

/// The URL with a scheme: `http` if it has none.
pub open spec fn with_scheme(url: Seq<char>) -> Seq<char> {
    if has_prefix(url, HTTP_PREFIX@) || has_prefix(url, HTTPS_PREFIX@) {
        url
    } else {
        HTTP_PREFIX@ + url
    }
}

/// The contents of a list of strings.
pub open spec fn texts(list: Seq<String>) -> Seq<Seq<char>> {
    list.map_values(|s: String| s@)
}

/// The URLs of a new member, each with a scheme.
pub fn member_urls(urls: &Vec<String>) -> (r: Vec<String>)
    ensures
        texts(r@) == texts(urls@).map_values(|url: Seq<char>| with_scheme(url)),
{
    let mut eps: Vec<String> = Vec::new();
    let mut i: usize = 0;
    while i < urls.len()
        invariant
            i <= urls@.len(),
            eps@.len() == i,
            forall|j: int| 0 <= j < i ==> (#[trigger] eps@[j])@ == with_scheme(urls@[j]@),
        decreases urls@.len() - i,
    {
        let e = urls[i].as_str();
        let url = if str_starts_with(e, HTTP_PREFIX) || str_starts_with(e, HTTPS_PREFIX) {
            e.to_owned()
        } else {
            joined(HTTP_PREFIX, e)
        };
        eps.push(url);
        i += 1;
    }
    assert(texts(eps@) =~= texts(urls@).map_values(|url: Seq<char>| with_scheme(url)));
    eps
}

/// Asynchronous `etcd` client using v3 API: what it decides, without its channel.
///
/// A clone shares the live endpoint count, and has its own copy of the token. Whoever
/// wants clones to share the token keeps it in one place and in step.
#[derive(Debug)]
pub struct Client {
    pub watch: WatchClient,
    pub lease: LeaseClient,
    pub options: ConnectOptions,
    /// The client manages the endpoints of its channel.
    pub managed: bool,
    pub auth_token: Option<Token>,
    pub retry: RetryConfig,
}

impl Clone for Client {
    fn clone(&self) -> (r: Self)
        ensures
            r == *self,
    {
        Client {
            watch: self.watch.clone(),
            lease: self.lease.clone(),
            options: self.options.clone(),
            managed: self.managed,
            auth_token: match &self.auth_token {
                Some(token) => Some(token.clone()),
                None => None,
            },
            retry: self.retry.clone(),
        }
    }
}

/// `client` is a new client with the options and `endpoints` endpoints: it has no
/// token yet, and its streams share its retry config.
pub open spec fn new_client(
    client: Client,
    options: ConnectOptions,
    managed: bool,
    endpoints: nat,
) -> bool {
    &&& client.options == options
    &&& client.managed == managed
    &&& client.auth_token is None
    &&& config_for(client.retry, options, endpoints)
    &&& client.watch == (WatchClient { max_decoding_message_size: None, retry: client.retry })
    &&& client.lease == (LeaseClient { retry: client.retry })
}

/// The options given, or the default ones.
pub open spec fn or_default(options: Option<ConnectOptions>) -> ConnectOptions {
    match options {
        Some(o) => o,
        None => blank_options(false),
    }
}

/// Every URL builds, in order.
pub open spec fn all_build(
    urls: Seq<String>,
    options: ConnectOptions,
    support: TlsSupport,
    endpoints: Seq<Endpoint>,
) -> bool {
    &&& endpoints.len() == urls.len()
    &&& forall|i: int|
        0 <= i < urls.len() ==> builds(
            urls[i]@,
            options,
            support,
            Ok(#[trigger] endpoints[i]),
        )
}

/// The first URL that does not build is the one at `i`, with the error `e`.
pub open spec fn first_failure(
    urls: Seq<String>,
    options: ConnectOptions,
    support: TlsSupport,
    i: int,
    e: Error,
) -> bool {
    &&& 0 <= i < urls.len()
    &&& builds(urls[i]@, options, support, Err(e))
    &&& exists|before: Seq<Endpoint>| #[trigger]
        all_build(urls.take(i), options, support, before)
}

/// `r` is the endpoint to insert, or the error, when a text is added as an endpoint.
/// A text that builds no endpoint is told before that the endpoints are not managed.
pub open spec fn adds_endpoint(
    client: Client,
    url: Seq<char>,
    support: TlsSupport,
    r: Result<Endpoint, Error>,
) -> bool {
    if client.managed {
        builds(url, client.options, support, r)
    } else {
        r matches Err(e) && if e is EndpointsNotManaged {
            exists|built: Endpoint| #[trigger] builds(url, client.options, support, Ok(built))
        } else {
            builds(url, client.options, support, r)
        }
    }
}

/// `r` is the URI to remove, or the error, when a text is removed as an endpoint.
pub open spec fn removes_endpoint(
    client: Client,
    url: Seq<char>,
    support: TlsSupport,
    r: Result<Uri, Error>,
) -> bool {
    match parsed_uri(full_url(url, support, client.options.tls is Some, client.options.otls)) {
        None => r matches Err(Error::InvalidUri),
        Some(uri) => if client.managed {
            r == Ok::<Uri, Error>(uri)
        } else {
            r matches Err(Error::EndpointsNotManaged)
        },
    }
}

impl Client {
    /// Prepares to connect to `etcd` servers from given `endpoints`: the client, and
    /// the transport endpoints to insert into its channel.
    pub fn connect(
        endpoints: &Vec<String>,
        options: Option<ConnectOptions>,
        support: TlsSupport,
    ) -> (r: Result<(Client, Vec<Endpoint>), Error>)
        requires
            or_default(options).max_retries is None ==> 2 * endpoints@.len() <= usize::MAX,
        ensures
            match r {
                Ok((client, eps)) => {
                    &&& endpoints@.len() > 0
                    &&& all_build(endpoints@, or_default(options), support, eps@)
                    &&& new_client(client, or_default(options), true, endpoints@.len())
                },
                Err(e) => if endpoints@.len() == 0 {
                    e matches Error::InvalidArgs(message) && message@ == "empty endpoints"@
                } else {
                    exists|i: int| #[trigger]
                        first_failure(endpoints@, or_default(options), support, i, e)
                },
            },
    {
        let opts = match options {
            Some(o) => o,
            None => ConnectOptions::default(),
        };
        let mut eps: Vec<Endpoint> = Vec::new();
        let mut i: usize = 0;
        while i < endpoints.len()
            invariant
                i <= endpoints@.len(),
                opts == or_default(options),
                all_build(endpoints@.take(i as int), opts, support, eps@),
            decreases endpoints@.len() - i,
        {
            match build_endpoint(endpoints[i].as_str(), &opts, support) {
                Ok(endpoint) => {
                    let ghost before = eps@;
                    eps.push(endpoint);
                    assert forall|j: int| 0 <= j < i + 1 implies builds(
                        endpoints@.take(i + 1)[j]@,
                        opts,
                        support,
                        Ok(#[trigger] eps@[j]),
                    ) by {
                        if j < i {
                            assert(builds(
                                endpoints@.take(i as int)[j]@,
                                opts,
                                support,
                                Ok(before[j]),
                            ));
                        }
                    }
                },
                Err(e) => {
                    assert(first_failure(endpoints@, opts, support, i as int, e));
                    return Err(e);
                },
            }
            i += 1;
        }
        assert(endpoints@.take(i as int) =~= endpoints@);
        if eps.len() == 0 {
            return Err(Error::InvalidArgs("empty endpoints".to_string()));
        }
        let count = eps.len();
        let client = Self::build_client(true, opts).with_retry_config(count);
        Ok((client, eps))
    }

    /// Prepares to use a channel whose endpoints are not managed by the client.
    /// Retries are paced as if it had a single endpoint.
    pub fn from_channel(options: Option<ConnectOptions>) -> (r: Client)
        ensures
            new_client(r, or_default(options), false, 1),
    {
        let options = match options {
            Some(o) => o,
            None => ConnectOptions::default(),
        };
        Self::build_client(false, options).with_retry_config(1)
    }

    fn build_client(managed: bool, options: ConnectOptions) -> (r: Client)
        ensures
            r.options == options,
            r.managed == managed,
            r.auth_token is None,
            r.watch.max_decoding_message_size is None,
    {
        Client {
            watch: WatchClient::new(),
            lease: LeaseClient::new(),
            options,
            managed,
            auth_token: None,
            // Overwritten by `with_retry_config` once the endpoint count is known.
            retry: RetryConfig::disabled(),
        }
    }

    /// Builds the retry config from options and endpoint count, then stores it.
    pub fn with_retry_config(self, endpoint_count: usize) -> (r: Self)
        requires
            self.options.max_retries is None ==> 2 * endpoint_count <= usize::MAX,
        ensures
            config_for(r.retry, self.options, endpoint_count as nat),
            r == (Client {
                retry: r.retry,
                watch: WatchClient { retry: r.retry, ..self.watch },
                lease: LeaseClient { retry: r.retry },
                ..self
            }),
    {
        let mut client = self;
        let max_attempts: u32 = match client.options.max_retries {
            Some(n) => n,
            None => attempts_for(endpoint_count),
        };
        let wait = match client.options.retry_backoff {
            Some(wait) => wait,
            None => Duration::from_millis(25),
        };
        // Stream auto-reconnect defaults on whenever retry is on.
        let retry_on = max_attempts > 1;
        let watch_reconnect = match client.options.watch_reconnect {
            Some(enabled) => enabled,
            None => retry_on,
        };
        let lease_reconnect = match client.options.lease_keepalive_reconnect {
            Some(enabled) => enabled,
            None => retry_on,
        };
        let retry = RetryConfig::new(
            max_attempts,
            wait,
            endpoint_count,
            watch_reconnect,
            lease_reconnect,
        );
        // Streaming reconnection lives in the watch/lease sub-clients, so they
        // need the config too.
        client.watch.set_retry(retry.clone());
        client.lease.set_retry(retry.clone());
        client.retry = retry;
        client
    }

    /// Begins a unary RPC: it is retried according to its policy, re-authenticating
    /// on token expiry if there are credentials.
    pub fn run_failover(&self, rpc: Rpc) -> (r: RetryRun)
        ensures
            r.wf(),
            r == new_run(
                if repeatable(rpc) {
                    RetryPolicy::Repeatable
                } else {
                    RetryPolicy::NonRepeatable
                },
                self.options.user is Some,
                self.retry.max_attempts,
            ),
    {
        RetryRun::start(rpc.policy(), self.options.user.is_some(), self.retry.max_attempts)
    }

    /// Prepares to dynamically add an endpoint to the client: the transport endpoint
    /// to insert into the channel.
    ///
    /// Note that the [`Client`] doesn't check the authentication before added.
    /// So the etcd member of the added endpoint REQUIRES to use the same auth
    /// token as when create the client. Otherwise, the underlying balance
    /// services will not be able to connect to the new endpoint.
    pub fn add_endpoint(&self, endpoint: &str, support: TlsSupport) -> (r: Result<Endpoint, Error>)
        ensures
            adds_endpoint(*self, endpoint@, support, r),
    {
        let endpoint = build_endpoint(endpoint, &self.options, support)?;
        if !self.managed {
            return Err(Error::EndpointsNotManaged);
        }
        Ok(endpoint)
    }

    /// Takes the outcome of inserting an endpoint into the channel. Once it is in,
    /// backoff is paced against it too.
    pub fn endpoint_inserted(&self, outcome: Result<(), String>) -> (r: Result<(), Error>)
        ensures
            match outcome {
                Ok(()) => r is Ok && counted_up(*self.retry.endpoint_count),
                Err(cause) => r matches Err(Error::EndpointError(message)) && message@
                    == "failed to add endpoint because of "@ + cause@,
            },
    {
        match outcome {
            Ok(()) => {
                self.retry.endpoint_added();
                Ok(())
            },
            Err(cause) => Err(
                Error::EndpointError(joined("failed to add endpoint because of ", cause.as_str())),
            ),
        }
    }

    /// Prepares to dynamically remove an endpoint from the client: the URI to remove
    /// from the channel.
    ///
    /// Note that the `endpoint` str should be the same as it was added.
    /// And the underlying balance services cache used the hash from the Uri,
    /// which was parsed from `endpoint` str, to do the equality comparisons.
    pub fn remove_endpoint(&self, endpoint: &str, support: TlsSupport) -> (r: Result<Uri, Error>)
        ensures
            removes_endpoint(*self, endpoint@, support, r),
    {
        let uri = endpoint_uri(endpoint, &self.options, support)?;
        if !self.managed {
            return Err(Error::EndpointsNotManaged);
        }
        Ok(uri)
    }

    /// Takes the outcome of removing an endpoint from the channel. Once it is out,
    /// backoff is no longer paced against it.
    pub fn endpoint_dropped(&self, outcome: Result<(), String>) -> (r: Result<(), Error>)
        ensures
            match outcome {
                Ok(()) => r is Ok && counted_down(*self.retry.endpoint_count),
                Err(cause) => r matches Err(Error::EndpointError(message)) && message@
                    == "failed to remove endpoint because of "@ + cause@,
            },
    {
        match outcome {
            Ok(()) => {
                self.retry.endpoint_removed();
                Ok(())
            },
            Err(cause) => Err(
                Error::EndpointError(
                    joined("failed to remove endpoint because of ", cause.as_str()),
                ),
            ),
        }
    }

    /// Gets a watch client.
    pub fn watch_client(&self) -> (r: WatchClient)
        ensures
            r == self.watch,
    {
        self.watch.clone()
    }

    /// Gets a lease client.
    pub fn lease_client(&self) -> (r: LeaseClient)
        ensures
            r == self.lease,
    {
        self.lease.clone()
    }

    /// Begins an authentication: it only mints a token, so it fails over like an
    /// idempotent RPC, within the retry budget.
    pub fn do_authenticate(&self, user: String, password: String) -> (r: AuthRun)
        ensures
            r.wf(),
            r == new_auth(self.retry.max_attempts, user, password),
    {
        AuthRun::start(self.retry.max_attempts, user, password)
    }

    /// Begins to refresh the authentication token if the client has credentials
    /// options; without them the token is dropped.
    pub fn refresh_token(&mut self) -> (r: AuthStep)
        ensures
            r == auth_step(old(self).options.user),
            *final(self) == (Client {
                auth_token: token_before(old(self).options.user, old(self).auth_token),
                ..*old(self)
            }),
    {
        begin_refresh(&self.options.user, &mut self.auth_token)
    }

    /// Takes the outcome of the authentication that a refresh asked for.
    pub fn token_refreshed(&mut self, outcome: Result<Token, Error>) -> (r: Result<(), Error>)
        ensures
            r == stored(outcome),
            *final(self) == (Client {
                auth_token: token_after(old(self).auth_token, outcome),
                ..*old(self)
            }),
    {
        store_token(&mut self.auth_token, outcome)
    }

    /// Begins to update the user credentials for the client in flight.
    ///
    /// Client will perform the authentication with the given user credentials. If successful, the
    /// authentication token will be updated in the client. Nothing happens if the authentication
    /// fails.
    ///
    /// If the user is `None`, it will remove the authentication token from the client.
    pub fn update_user(&mut self, user: &Option<(String, String)>) -> (r: AuthStep)
        ensures
            r == auth_step(*user),
            *final(self) == (if user is Some {
                *old(self)
            } else {
                Client {
                    auth_token: None,
                    options: ConnectOptions { user: None, ..old(self).options },
                    ..*old(self)
                }
            }),
    {
        let step = begin_refresh(user, &mut self.auth_token);
        if user.is_none() {
            self.options.user = None;
        }
        step
    }

    /// Takes the outcome of the authentication with the new user's credentials.
    pub fn user_updated(
        &mut self,
        user: (String, String),
        outcome: Result<Token, Error>,
    ) -> (r: Result<(), Error>)
        ensures
            r == stored(outcome),
            *final(self) == (Client {
                auth_token: token_after(old(self).auth_token, outcome),
                options: ConnectOptions {
                    user: creds_after(old(self).options.user, user, outcome),
                    ..old(self).options
                },
                ..*old(self)
            }),
    {
        store_token(&mut self.auth_token, outcome)?;
        self.options.user = Some(user);
        Ok(())
    }
}

/// A URL that got a scheme keeps it: giving it one again changes nothing.
pub proof fn law_scheme_is_added_once(url: Seq<char>)
    ensures
        with_scheme(with_scheme(url)) == with_scheme(url),
        has_prefix(with_scheme(url), HTTP_PREFIX@) || has_prefix(with_scheme(url), HTTPS_PREFIX@),
{
    assert((HTTP_PREFIX@ + url).take(HTTP_PREFIX@.len() as int) =~= HTTP_PREFIX@);
}

/// By default retry is on, with at least five attempts and two per endpoint, and
/// then both kinds of stream reconnect.
pub proof fn law_failover_is_on_by_default(retry: RetryConfig, options: ConnectOptions, endpoints: nat)
    requires
        options.max_retries is None,
        options.watch_reconnect is None,
        options.lease_keepalive_reconnect is None,
        2 * endpoints <= u32::MAX,
        config_for(retry, options, endpoints),
    ensures
        retry.max_attempts >= 5,
        retry.max_attempts >= 2 * endpoints,
        retry.watch_reconnect,
        retry.lease_reconnect,
{
}

/// The text that added an endpoint also removes it: it gives the URI of the endpoint
/// that was inserted.
pub proof fn law_same_text_removes_what_it_added(
    client: Client,
    url: Seq<char>,
    support: TlsSupport,
    added: Endpoint,
    removal: Result<Uri, Error>,
)
    requires
        adds_endpoint(client, url, support, Ok(added)),
        removes_endpoint(client, url, support, removal),
    ensures
        removal == Ok::<Uri, Error>(endpoint_settings(added).uri),
{
    law_url_leads_to_its_endpoint(url, client.options, support, added);
}

/// The RPCs and both kinds of stream of a client share one endpoint count, so that an
/// added or removed endpoint re-paces them all.
pub proof fn law_endpoint_changes_repace_the_whole_client(
    client: Client,
    options: ConnectOptions,
    managed: bool,
    endpoints: nat,
    n: usize,
)
    requires
        new_client(client, options, managed, endpoints),
    ensures
        counted_up(*client.retry.endpoint_count) ==> counted_up(*client.watch.retry.endpoint_count)
            && counted_up(*client.lease.retry.endpoint_count),
        counted_down(*client.retry.endpoint_count) ==> counted_down(
            *client.watch.retry.endpoint_count,
        ) && counted_down(*client.lease.retry.endpoint_count),
        was_read(*client.retry.endpoint_count, n) <==> was_read(
            *client.watch.retry.endpoint_count,
            n,
        ),
        was_read(*client.retry.endpoint_count, n) <==> was_read(
            *client.lease.retry.endpoint_count,
            n,
        ),
{
}

/// With a budget of 0 or 1 attempts, streams do not reconnect either unless that
/// is asked for.
pub proof fn law_disabled_retry_disables_reconnect(
    retry: RetryConfig,
    options: ConnectOptions,
    endpoints: nat,
)
    requires
        options.max_retries matches Some(n) && n <= 1,
        config_for(retry, options, endpoints),
    ensures
        retry.watch_reconnect <==> options.watch_reconnect == Some(true),
        retry.lease_reconnect <==> options.lease_keepalive_reconnect == Some(true),
{
}

} // verus!
