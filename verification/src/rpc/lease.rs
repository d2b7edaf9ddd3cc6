//! The lease service: requests, options, responses and the client's part of each
//! call.

use crate::error::Error;
use crate::failover::{RetryConfig, RetryPolicy};
use crate::retry::{new_run, RetryRun};
use crate::rpc::lease_driver::LeaseKeepAliveDriver;
use crate::rpc::ResponseHeader;
use crate::text::has_prefix;
use std::collections::HashSet;
use vstd::prelude::*;

verus! {

broadcast use vstd::std_specs::hash::group_hash_axioms;

/// A request to grant a lease, as it goes over the wire.
#[derive(Clone, Copy, Debug, Default, PartialEq, Eq, Structural)]
pub struct PbLeaseGrantRequest {
    pub ttl: i64,
    pub id: i64,
}

/// A request to revoke a lease, as it goes over the wire.
#[derive(Clone, Copy, Debug, Default, PartialEq, Eq, Structural)]
pub struct PbLeaseRevokeRequest {
    pub id: i64,
}

/// A request to renew a lease, as it goes over the wire.
#[derive(Clone, Copy, Debug, Default, PartialEq, Eq, Structural)]
pub struct PbLeaseKeepAliveRequest {
    pub id: i64,
}

/// A request for the state of a lease, as it goes over the wire.
#[derive(Clone, Copy, Debug, Default, PartialEq, Eq, Structural)]
pub struct PbLeaseTimeToLiveRequest {
    pub id: i64,
    pub keys: bool,
}

/// A request to list all leases, as it goes over the wire.
#[derive(Clone, Copy, Debug, Default, PartialEq, Eq, Structural)]
pub struct PbLeaseLeasesRequest {}

/// The reply to a grant, as it comes over the wire.
#[derive(Clone, Debug, Default)]
pub struct PbLeaseGrantResponse {
    pub header: Option<ResponseHeader>,
    pub id: i64,
    pub ttl: i64,
    pub error: String,
}

/// The reply to a revocation, as it comes over the wire.
#[derive(Clone, Copy, Debug, Default, PartialEq)]
pub struct PbLeaseRevokeResponse {
    pub header: Option<ResponseHeader>,
}

/// The reply to a renewal, as it comes over the wire.
#[derive(Clone, Copy, Debug, Default, PartialEq)]
pub struct PbLeaseKeepAliveResponse {
    pub header: Option<ResponseHeader>,
    pub id: i64,
    pub ttl: i64,
}

/// The state of a lease, as it comes over the wire.
#[derive(Clone, Debug, Default)]
pub struct PbLeaseTimeToLiveResponse {
    pub header: Option<ResponseHeader>,
    pub id: i64,
    pub ttl: i64,
    pub granted_ttl: i64,
    pub keys: Vec<Vec<u8>>,
}

/// A lease in a listing, as it comes over the wire.
#[derive(Clone, Copy, Debug, Default, PartialEq, Eq, Structural)]
pub struct PbLeaseStatus {
    pub id: i64,
}

/// The listing of all leases, as it comes over the wire.
#[derive(Clone, Debug, Default)]
pub struct PbLeaseLeasesResponse {
    pub header: Option<ResponseHeader>,
    pub leases: Vec<LeaseStatus>,
}

/// Options for `Grant` operation.
#[derive(Clone, Copy, Debug, PartialEq, Eq, Structural)]
pub struct LeaseGrantOptions(pub PbLeaseGrantRequest);

impl Default for LeaseGrantOptions {
    fn default() -> (r: Self)
        ensures
            r.0 == (PbLeaseGrantRequest { ttl: 0, id: 0 }),
    {
        LeaseGrantOptions::new()
    }
}

impl LeaseGrantOptions {
    /// Set ttl
    pub fn with_ttl(self, ttl: i64) -> (r: Self)
        ensures
            r.0 == (PbLeaseGrantRequest { ttl, ..self.0 }),
    {
        LeaseGrantOptions(PbLeaseGrantRequest { ttl, ..self.0 })
    }

    /// Set id
    pub fn with_id(self, id: i64) -> (r: Self)
        ensures
            r.0 == (PbLeaseGrantRequest { id, ..self.0 }),
    {
        LeaseGrantOptions(PbLeaseGrantRequest { id, ..self.0 })
    }

    /// Creates a `LeaseGrantOptions`.
    pub fn new() -> (r: Self)
        ensures
            r.0 == (PbLeaseGrantRequest { ttl: 0, id: 0 }),
    {
        LeaseGrantOptions(PbLeaseGrantRequest { ttl: 0, id: 0 })
    }
}

impl From<LeaseGrantOptions> for PbLeaseGrantRequest {
    fn from(options: LeaseGrantOptions) -> (r: Self) {
        options.0
    }
}

impl vstd::std_specs::convert::FromSpecImpl<LeaseGrantOptions> for PbLeaseGrantRequest {
    open spec fn obeys_from_spec() -> bool {
        true
    }

    open spec fn from_spec(options: LeaseGrantOptions) -> Self {
        options.0
    }
}

/// Response for `Grant` operation.
#[derive(Clone, Debug)]
pub struct LeaseGrantResponse(pub PbLeaseGrantResponse);

impl LeaseGrantResponse {
    /// Creates a new `LeaseGrantResponse` from pb lease grant response.
    pub fn new(resp: PbLeaseGrantResponse) -> (r: Self)
        ensures
            r.0 == resp,
    {
        LeaseGrantResponse(resp)
    }

    /// Get response header.
    pub fn header(&self) -> (r: Option<&ResponseHeader>)
        ensures
            r == (match self.0.header {
                Some(header) => Some(&header),
                None => None,
            }),
    {
        self.0.header.as_ref()
    }

    /// Takes the header out of the response, leaving a [`None`] in its place.
    pub fn take_header(&mut self) -> (r: Option<ResponseHeader>)
        ensures
            r == old(self).0.header,
            final(self).0 == (PbLeaseGrantResponse { header: None, ..old(self).0 }),
    {
        self.0.header.take()
    }

    /// TTL is the server chosen lease time-to-live in seconds
    pub fn ttl(&self) -> (r: i64)
        ensures
            r == self.0.ttl,
    {
        self.0.ttl
    }

    /// ID is the lease ID for the granted lease.
    pub fn id(&self) -> (r: i64)
        ensures
            r == self.0.id,
    {
        self.0.id
    }

    /// Error message if return error.
    pub fn error(&self) -> (r: &str)
        ensures
            r@ == self.0.error@,
    {
        self.0.error.as_str()
    }
}

/// Options for `Revoke` operation.
#[derive(Clone, Copy, Debug, PartialEq, Eq, Structural)]
pub struct LeaseRevokeOptions(pub PbLeaseRevokeRequest);

impl Default for LeaseRevokeOptions {
    fn default() -> (r: Self)
        ensures
            r.0 == (PbLeaseRevokeRequest { id: 0 }),
    {
        LeaseRevokeOptions::new()
    }
}

impl LeaseRevokeOptions {
    /// Set id
    pub fn with_id(self, id: i64) -> (r: Self)
        ensures
            r.0 == (PbLeaseRevokeRequest { id }),
    {
        LeaseRevokeOptions(PbLeaseRevokeRequest { id })
    }

    /// Creates a `LeaseRevokeOptions`.
    pub fn new() -> (r: Self)
        ensures
            r.0 == (PbLeaseRevokeRequest { id: 0 }),
    {
        LeaseRevokeOptions(PbLeaseRevokeRequest { id: 0 })
    }
}

impl From<LeaseRevokeOptions> for PbLeaseRevokeRequest {
    fn from(options: LeaseRevokeOptions) -> (r: Self) {
        options.0
    }
}

impl vstd::std_specs::convert::FromSpecImpl<LeaseRevokeOptions> for PbLeaseRevokeRequest {
    open spec fn obeys_from_spec() -> bool {
        true
    }

    open spec fn from_spec(options: LeaseRevokeOptions) -> Self {
        options.0
    }
}

/// Response for `Revoke` operation.
#[derive(Clone, Debug)]
pub struct LeaseRevokeResponse(pub PbLeaseRevokeResponse);

impl LeaseRevokeResponse {
    /// Creates a new `LeaseRevokeResponse` from pb lease revoke response.
    pub fn new(resp: PbLeaseRevokeResponse) -> (r: Self)
        ensures
            r.0 == resp,
    {
        LeaseRevokeResponse(resp)
    }

    /// Get response header.
    pub fn header(&self) -> (r: Option<&ResponseHeader>)
        ensures
            r == (match self.0.header {
                Some(header) => Some(&header),
                None => None,
            }),
    {
        self.0.header.as_ref()
    }

    /// Takes the header out of the response, leaving a [`None`] in its place.
    pub fn take_header(&mut self) -> (r: Option<ResponseHeader>)
        ensures
            r == old(self).0.header,
            final(self).0 == (PbLeaseRevokeResponse { header: None }),
    {
        self.0.header.take()
    }
}

/// Options for `KeepAlive` operation.
#[derive(Clone, Copy, Debug, PartialEq, Eq, Structural)]
pub struct LeaseKeepAliveOptions(pub PbLeaseKeepAliveRequest);

impl Default for LeaseKeepAliveOptions {
    fn default() -> (r: Self)
        ensures
            r.0 == (PbLeaseKeepAliveRequest { id: 0 }),
    {
        LeaseKeepAliveOptions::new()
    }
}

impl LeaseKeepAliveOptions {
    /// Set id
    pub fn with_id(self, id: i64) -> (r: Self)
        ensures
            r.0 == (PbLeaseKeepAliveRequest { id }),
    {
        LeaseKeepAliveOptions(PbLeaseKeepAliveRequest { id })
    }

    /// Creates a `LeaseKeepAliveOptions`.
    pub fn new() -> (r: Self)
        ensures
            r.0 == (PbLeaseKeepAliveRequest { id: 0 }),
    {
        LeaseKeepAliveOptions(PbLeaseKeepAliveRequest { id: 0 })
    }
}

impl From<LeaseKeepAliveOptions> for PbLeaseKeepAliveRequest {
    fn from(options: LeaseKeepAliveOptions) -> (r: Self) {
        options.0
    }
}

impl vstd::std_specs::convert::FromSpecImpl<LeaseKeepAliveOptions> for PbLeaseKeepAliveRequest {
    open spec fn obeys_from_spec() -> bool {
        true
    }

    open spec fn from_spec(options: LeaseKeepAliveOptions) -> Self {
        options.0
    }
}

/// Response for `KeepAlive` operation.
#[derive(Clone, Copy, Debug)]
pub struct LeaseKeepAliveResponse(pub PbLeaseKeepAliveResponse);

impl LeaseKeepAliveResponse {
    /// Creates a new `LeaseKeepAliveResponse` from pb lease KeepAlive response.
    pub fn new(resp: PbLeaseKeepAliveResponse) -> (r: Self)
        ensures
            r.0 == resp,
    {
        LeaseKeepAliveResponse(resp)
    }

    /// Get response header.
    pub fn header(&self) -> (r: Option<&ResponseHeader>)
        ensures
            r == (match self.0.header {
                Some(header) => Some(&header),
                None => None,
            }),
    {
        self.0.header.as_ref()
    }

    /// Takes the header out of the response, leaving a [`None`] in its place.
    pub fn take_header(&mut self) -> (r: Option<ResponseHeader>)
        ensures
            r == old(self).0.header,
            final(self).0 == (PbLeaseKeepAliveResponse { header: None, ..old(self).0 }),
    {
        self.0.header.take()
    }

    /// TTL is the new time-to-live for the lease.
    pub fn ttl(&self) -> (r: i64)
        ensures
            r == self.0.ttl,
    {
        self.0.ttl
    }

    /// ID is the lease ID for the keep alive request.
    pub fn id(&self) -> (r: i64)
        ensures
            r == self.0.id,
    {
        self.0.id
    }
}

/// Options for `TimeToLive` operation.
#[derive(Clone, Copy, Debug, PartialEq, Eq, Structural)]
pub struct LeaseTimeToLiveOptions(pub PbLeaseTimeToLiveRequest);

impl Default for LeaseTimeToLiveOptions {
    fn default() -> (r: Self)
        ensures
            r.0 == (PbLeaseTimeToLiveRequest { id: 0, keys: false }),
    {
        LeaseTimeToLiveOptions::new()
    }
}

impl LeaseTimeToLiveOptions {
    /// ID is the lease ID for the lease.
    pub fn with_id(self, id: i64) -> (r: Self)
        ensures
            r.0 == (PbLeaseTimeToLiveRequest { id, ..self.0 }),
    {
        LeaseTimeToLiveOptions(PbLeaseTimeToLiveRequest { id, ..self.0 })
    }

    /// Keys is true to query all the keys attached to this lease.
    pub fn with_keys(self) -> (r: Self)
        ensures
            r.0 == (PbLeaseTimeToLiveRequest { keys: true, ..self.0 }),
    {
        LeaseTimeToLiveOptions(PbLeaseTimeToLiveRequest { keys: true, ..self.0 })
    }

    /// Creates a `LeaseTimeToLiveOptions`.
    pub fn new() -> (r: Self)
        ensures
            r.0 == (PbLeaseTimeToLiveRequest { id: 0, keys: false }),
    {
        LeaseTimeToLiveOptions(PbLeaseTimeToLiveRequest { id: 0, keys: false })
    }
}

impl From<LeaseTimeToLiveOptions> for PbLeaseTimeToLiveRequest {
    fn from(options: LeaseTimeToLiveOptions) -> (r: Self) {
        options.0
    }
}

impl vstd::std_specs::convert::FromSpecImpl<LeaseTimeToLiveOptions> for PbLeaseTimeToLiveRequest {
    open spec fn obeys_from_spec() -> bool {
        true
    }

    open spec fn from_spec(options: LeaseTimeToLiveOptions) -> Self {
        options.0
    }
}

/// The key without the prefix, if it begins with that; otherwise the key.
pub open spec fn without_prefix(key: Seq<u8>, prefix: Seq<u8>) -> Seq<u8> {
    if has_prefix(key, prefix) {
        key.skip(prefix.len() as int)
    } else {
        key
    }
}

/// The contents of a list of keys.
pub open spec fn key_views(keys: Seq<Vec<u8>>) -> Seq<Seq<u8>> {
    keys.map_values(|key: Vec<u8>| key@)
}

/// Whether the key begins with the prefix.
fn begins_with(key: &Vec<u8>, prefix: &[u8]) -> (r: bool)
    ensures
        r == has_prefix(key@, prefix@),
{
    if key.len() < prefix.len() {
        return false;
    }
    let mut i: usize = 0;
    while i < prefix.len()
        invariant
            i <= prefix@.len() <= key@.len(),
            forall|j: int| 0 <= j < i ==> key@[j] == prefix@[j],
        decreases prefix@.len() - i,
    {
        if key[i] != prefix[i] {
            assert(key@.take(prefix@.len() as int)[i as int] != prefix@[i as int]);
            return false;
        }
        i += 1;
    }
    assert(key@.take(prefix@.len() as int) =~= prefix@);
    true
}

/// Response for `TimeToLive` operation.
#[derive(Clone, Debug)]
pub struct LeaseTimeToLiveResponse(pub PbLeaseTimeToLiveResponse);

impl LeaseTimeToLiveResponse {
    /// Creates a new `LeaseTimeToLiveResponse` from pb lease TimeToLive response.
    pub fn new(resp: PbLeaseTimeToLiveResponse) -> (r: Self)
        ensures
            r.0 == resp,
    {
        LeaseTimeToLiveResponse(resp)
    }

    /// Get response header.
    pub fn header(&self) -> (r: Option<&ResponseHeader>)
        ensures
            r == (match self.0.header {
                Some(header) => Some(&header),
                None => None,
            }),
    {
        self.0.header.as_ref()
    }

    /// Takes the header out of the response, leaving a [`None`] in its place.
    pub fn take_header(&mut self) -> (r: Option<ResponseHeader>)
        ensures
            r == old(self).0.header,
            final(self).0 == (PbLeaseTimeToLiveResponse { header: None, ..old(self).0 }),
    {
        self.0.header.take()
    }

    /// TTL is the remaining TTL in seconds for the lease; the lease will expire in under TTL+1 seconds.
    pub fn ttl(&self) -> (r: i64)
        ensures
            r == self.0.ttl,
    {
        self.0.ttl
    }

    /// ID is the lease ID from the keep alive request.
    pub fn id(&self) -> (r: i64)
        ensures
            r == self.0.id,
    {
        self.0.id
    }

    /// GrantedTTL is the initial granted time in seconds upon lease creation/renewal.
    pub fn granted_ttl(&self) -> (r: i64)
        ensures
            r == self.0.granted_ttl,
    {
        self.0.granted_ttl
    }

    /// Keys is the list of keys attached to this lease.
    pub fn keys(&self) -> (r: &[Vec<u8>])
        ensures
            r@ == self.0.keys@,
    {
        self.0.keys.as_slice()
    }

    /// Strips the prefix from every key that begins with it.
    pub fn strip_keys_prefix(&mut self, prefix: &[u8])
        ensures
            key_views(final(self).0.keys@) == key_views(old(self).0.keys@).map_values(
                |key: Seq<u8>| without_prefix(key, prefix@),
            ),
            final(self).0 == (PbLeaseTimeToLiveResponse {
                keys: final(self).0.keys,
                ..old(self).0
            }),
    {
        let ghost before = key_views(self.0.keys@);
        let mut i: usize = 0;
        while i < self.0.keys.len()
            invariant
                i <= self.0.keys@.len(),
                self.0.keys@.len() == before.len(),
                before == key_views(old(self).0.keys@),
                forall|j: int|
                    0 <= j < i ==> (#[trigger] self.0.keys@[j])@ == without_prefix(
                        before[j],
                        prefix@,
                    ),
                forall|j: int| i <= j < before.len() ==> (#[trigger] self.0.keys@[j])@ == before[j],
                self.0 == (PbLeaseTimeToLiveResponse { keys: self.0.keys, ..old(self).0 }),
            decreases before.len() - i,
        {
            if begins_with(&self.0.keys[i], prefix) {
                let rest = self.0.keys[i].split_off(prefix.len());
                self.0.keys.set(i, rest);
            }
            i += 1;
        }
        assert(key_views(self.0.keys@) =~= before.map_values(
            |key: Seq<u8>| without_prefix(key, prefix@),
        ));
    }
}

/// Response for `Leases` operation.
#[derive(Clone, Debug)]
pub struct LeaseLeasesResponse(pub PbLeaseLeasesResponse);

impl LeaseLeasesResponse {
    /// Creates a new `LeaseLeasesResponse` from pb lease Leases response.
    pub fn new(resp: PbLeaseLeasesResponse) -> (r: Self)
        ensures
            r.0 == resp,
    {
        LeaseLeasesResponse(resp)
    }

    /// Get response header.
    pub fn header(&self) -> (r: Option<&ResponseHeader>)
        ensures
            r == (match self.0.header {
                Some(header) => Some(&header),
                None => None,
            }),
    {
        self.0.header.as_ref()
    }

    /// Takes the header out of the response, leaving a [`None`] in its place.
    pub fn take_header(&mut self) -> (r: Option<ResponseHeader>)
        ensures
            r == old(self).0.header,
            final(self).0 == (PbLeaseLeasesResponse { header: None, ..old(self).0 }),
    {
        self.0.header.take()
    }

    /// Get leases status
    pub fn leases(&self) -> (r: &[LeaseStatus])
        ensures
            r@ == self.0.leases@,
    {
        self.0.leases.as_slice()
    }
}

/// Lease status.
#[derive(Clone, Copy, Debug, PartialEq, Eq, Structural)]
pub struct LeaseStatus(pub PbLeaseStatus);

impl LeaseStatus {
    /// Lease id.
    pub fn id(&self) -> (r: i64)
        ensures
            r == self.0.id,
    {
        self.0.id
    }
}

/// The lease keep alive handle.
#[derive(Clone, Copy, Debug, PartialEq, Eq, Structural)]
pub struct LeaseKeeper {
    pub id: i64,
}

impl LeaseKeeper {
    /// Creates a new `LeaseKeeper`.
    pub fn new(id: i64) -> (r: Self)
        ensures
            r.id == id,
    {
        LeaseKeeper { id }
    }

    /// The lease id which user want to keep alive.
    pub fn id(&self) -> (r: i64)
        ensures
            r == self.id,
    {
        self.id
    }

    /// The request that renews the lease.
    pub fn keep_alive(&self) -> (r: PbLeaseKeepAliveRequest)
        ensures
            r.id == self.id,
    {
        LeaseKeepAliveOptions::new().with_id(self.id).0
    }
}

/// Client for lease operations.
#[derive(Debug)]
pub struct LeaseClient {
    pub retry: RetryConfig,
}

impl Clone for LeaseClient {
    fn clone(&self) -> (r: Self)
        ensures
            r == *self,
    {
        LeaseClient { retry: self.retry.clone() }
    }
}

/// How the renewal of a lease begins, once its stream is open.
#[derive(Debug)]
pub struct LeaseStart {
    pub keeper: LeaseKeeper,
    /// The driver that keeps the stream alive; `None` for a stream that ends when
    /// its connection does.
    pub driver: Option<LeaseKeepAliveDriver>,
}

impl LeaseClient {
    /// Creates a `LeaseClient`.
    pub fn new() -> (r: Self)
        ensures
            r.retry.is_disabled(),
    {
        LeaseClient { retry: RetryConfig::disabled() }
    }

    /// Installs the failover config (called once at client construction).
    pub fn set_retry(&mut self, retry: RetryConfig)
        ensures
            final(self).retry == retry,
    {
        self.retry = retry;
    }

    /// The request for a lease which expires if the server does not receive a
    /// keepAlive within a given time to live period.
    pub fn grant(&self, ttl: i64, options: Option<LeaseGrantOptions>) -> (r: PbLeaseGrantRequest)
        ensures
            r == (PbLeaseGrantRequest {
                ttl,
                id: match options {
                    Some(o) => o.0.id,
                    None => 0,
                },
            }),
    {
        match options {
            Some(o) => o.with_ttl(ttl).0,
            None => LeaseGrantOptions::new().with_ttl(ttl).0,
        }
    }

    /// The request that revokes a lease. All keys attached to the lease will
    /// expire and be deleted.
    pub fn revoke(&self, id: i64) -> (r: PbLeaseRevokeRequest)
        ensures
            r.id == id,
    {
        LeaseRevokeOptions::new().with_id(id).0
    }

    /// The first request on a keep-alive stream for the lease.
    pub fn keep_alive(&self, id: i64) -> (r: PbLeaseKeepAliveRequest)
        ensures
            r.id == id,
    {
        LeaseKeepAliveOptions::new().with_id(id).0
    }

    /// The first response on a keep-alive stream validates the lease. `None` stands
    /// for a stream that ended before it.
    pub fn keep_alive_opened(&self, first: Option<PbLeaseKeepAliveResponse>) -> (r: Result<
        LeaseStart,
        Error,
    >)
        ensures
            match first {
                None => r matches Err(Error::WatchError(message)) && message@
                    == "failed to create lease keeper"@,
                Some(resp) => if resp.ttl <= 0 {
                    r matches Err(Error::LeaseKeepAliveError(message)) && message@
                        == "lease not found"@
                } else {
                    &&& r matches Ok(start)
                    &&& start.keeper.id == resp.id
                    &&& self.retry.lease_reconnect ==> {
                        &&& start.driver matches Some(driver)
                        &&& driver.client == *self
                        &&& driver.retry == self.retry
                        &&& driver@.leases == set![resp.id]
                        &&& driver@.attempt == 0
                        &&& driver@.req_open
                    }
                    &&& !self.retry.lease_reconnect ==> start.driver is None
                },
            },
    {
        let id = match first {
            Some(resp) => {
                if resp.ttl <= 0 {
                    return Err(Error::LeaseKeepAliveError("lease not found".to_string()));
                }
                resp.id
            },
            None => {
                return Err(Error::WatchError("failed to create lease keeper".to_string()));
            },
        };
        let keeper = LeaseKeeper::new(id);
        if self.retry.lease_reconnect {
            let mut lease_ids: HashSet<i64> = HashSet::new();
            lease_ids.insert(id);
            let driver = LeaseKeepAliveDriver {
                client: self.clone(),
                retry: self.retry.clone(),
                lease_ids,
                reconnect_attempt: 0,
                req_open: true,
            };
            return Ok(LeaseStart { keeper, driver: Some(driver) });
        }
        Ok(LeaseStart { keeper, driver: None })
    }

    /// The attempts at opening the first stream: like an idempotent RPC, it fails
    /// over to a healthy endpoint on a transient error, within the retry budget.
    /// This client cannot refresh an auth token, so an auth error ends it.
    pub fn open_retrying(&self) -> (r: RetryRun)
        ensures
            r.wf(),
            r == new_run(RetryPolicy::Repeatable, false, self.retry.max_attempts),
    {
        RetryRun::start(RetryPolicy::Repeatable, false, self.retry.max_attempts)
    }

    /// The request for lease information.
    pub fn time_to_live(&self, id: i64, options: Option<LeaseTimeToLiveOptions>) -> (r:
        PbLeaseTimeToLiveRequest)
        ensures
            r == (PbLeaseTimeToLiveRequest {
                id,
                keys: match options {
                    Some(o) => o.0.keys,
                    None => false,
                },
            }),
    {
        match options {
            Some(o) => o.with_id(id).0,
            None => LeaseTimeToLiveOptions::new().with_id(id).0,
        }
    }

    /// The request that lists all existing leases.
    pub fn leases(&self) -> (r: PbLeaseLeasesRequest)
        ensures
            r == (PbLeaseLeasesRequest {  }),
    {
        PbLeaseLeasesRequest {  }
    }
}

} // verus!
