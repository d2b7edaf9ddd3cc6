//! What lease requests ask for, what is read from lease responses, and how the renewal
//! of a lease begins.

use crate::error::Error;
use crate::failover::{RetryConfig, RetryPolicy};
use crate::retry::RetryRun;
use crate::rpc::lease::{
    LeaseClient, LeaseGrantOptions, LeaseGrantResponse, LeaseKeepAliveOptions,
    LeaseKeepAliveResponse, LeaseKeeper, LeaseLeasesResponse, LeaseRevokeOptions,
    LeaseRevokeResponse, LeaseStart, LeaseStatus, LeaseTimeToLiveOptions, LeaseTimeToLiveResponse,
    PbLeaseGrantRequest, PbLeaseGrantResponse, PbLeaseKeepAliveRequest, PbLeaseKeepAliveResponse,
    PbLeaseLeasesResponse, PbLeaseRevokeRequest, PbLeaseRevokeResponse, PbLeaseTimeToLiveRequest,
    PbLeaseTimeToLiveResponse,
};
use crate::rpc::ResponseHeader;
use crate::time::nanos;
use std::sync::atomic::AtomicUsize;
use vstd::prelude::*;

verus! {

/// New grant options leave time to live and id open, and each that is set is asked for
/// without the other changing.
pub proof fn law_grant_options(
    blank: LeaseGrantOptions,
    o: LeaseGrantOptions,
    ttl: i64,
    timed: LeaseGrantOptions,
    id: i64,
    named: LeaseGrantOptions,
    req: PbLeaseGrantRequest,
)
    requires
        call_ensures(LeaseGrantOptions::new, (), blank) || call_ensures(
            <LeaseGrantOptions as Default>::default,
            (),
            blank,
        ),
        call_ensures(LeaseGrantOptions::with_ttl, (o, ttl), timed),
        call_ensures(LeaseGrantOptions::with_id, (o, id), named),
        call_ensures(<PbLeaseGrantRequest as From<LeaseGrantOptions>>::from, (o,), req),
    ensures
        blank.0.ttl == 0,
        blank.0.id == 0,
        timed.0.ttl == ttl,
        timed.0.id == o.0.id,
        named.0.id == id,
        named.0.ttl == o.0.ttl,
        req.ttl == o.0.ttl,
        req.id == o.0.id,
{
}

/// New revoke options name no lease, and the id that is set is the one to revoke.
pub proof fn law_revoke_options(
    blank: LeaseRevokeOptions,
    o: LeaseRevokeOptions,
    id: i64,
    named: LeaseRevokeOptions,
    req: PbLeaseRevokeRequest,
)
    requires
        call_ensures(LeaseRevokeOptions::new, (), blank) || call_ensures(
            <LeaseRevokeOptions as Default>::default,
            (),
            blank,
        ),
        call_ensures(LeaseRevokeOptions::with_id, (o, id), named),
        call_ensures(<PbLeaseRevokeRequest as From<LeaseRevokeOptions>>::from, (o,), req),
    ensures
        blank.0.id == 0,
        named.0.id == id,
        req.id == o.0.id,
{
}

/// New renewal options name no lease, and the id that is set is the one to renew.
pub proof fn law_keep_alive_options(
    blank: LeaseKeepAliveOptions,
    o: LeaseKeepAliveOptions,
    id: i64,
    named: LeaseKeepAliveOptions,
    req: PbLeaseKeepAliveRequest,
)
    requires
        call_ensures(LeaseKeepAliveOptions::new, (), blank) || call_ensures(
            <LeaseKeepAliveOptions as Default>::default,
            (),
            blank,
        ),
        call_ensures(LeaseKeepAliveOptions::with_id, (o, id), named),
        call_ensures(<PbLeaseKeepAliveRequest as From<LeaseKeepAliveOptions>>::from, (o,), req),
    ensures
        blank.0.id == 0,
        named.0.id == id,
        req.id == o.0.id,
{
}

/// New query options name no lease and ask for no keys, and each that is set is asked
/// for without the other changing.
pub proof fn law_time_to_live_options(
    blank: LeaseTimeToLiveOptions,
    o: LeaseTimeToLiveOptions,
    id: i64,
    named: LeaseTimeToLiveOptions,
    keyed: LeaseTimeToLiveOptions,
    req: PbLeaseTimeToLiveRequest,
)
    requires
        call_ensures(LeaseTimeToLiveOptions::new, (), blank) || call_ensures(
            <LeaseTimeToLiveOptions as Default>::default,
            (),
            blank,
        ),
        call_ensures(LeaseTimeToLiveOptions::with_id, (o, id), named),
        call_ensures(LeaseTimeToLiveOptions::with_keys, (o,), keyed),
        call_ensures(<PbLeaseTimeToLiveRequest as From<LeaseTimeToLiveOptions>>::from, (o,), req),
    ensures
        blank.0.id == 0,
        !blank.0.keys,
        named.0.id == id,
        named.0.keys == o.0.keys,
        keyed.0.keys,
        keyed.0.id == o.0.id,
        req.id == o.0.id,
        req.keys == o.0.keys,
{
}

/// A grant asks for the time to live that was given, and for the id in the options; a
/// revocation, a renewal and a query name the lease that was given.
pub proof fn law_lease_requests(
    client: LeaseClient,
    ttl: i64,
    grant_options: Option<LeaseGrantOptions>,
    grant: PbLeaseGrantRequest,
    id: i64,
    revoke: PbLeaseRevokeRequest,
    renewal: PbLeaseKeepAliveRequest,
    query_options: Option<LeaseTimeToLiveOptions>,
    query: PbLeaseTimeToLiveRequest,
)
    requires
        call_ensures(LeaseClient::grant, (&client, ttl, grant_options), grant),
        call_ensures(LeaseClient::revoke, (&client, id), revoke),
        call_ensures(LeaseClient::keep_alive, (&client, id), renewal),
        call_ensures(LeaseClient::time_to_live, (&client, id, query_options), query),
    ensures
        grant.ttl == ttl,
        grant_options matches Some(o) ==> grant.id == o.0.id,
        grant_options is None ==> grant.id == 0,
        revoke.id == id,
        renewal.id == id,
        query.id == id,
        query_options matches Some(o) ==> query.keys == o.0.keys,
        query_options is None ==> !query.keys,
{
}

/// A keeper renews the lease that it was made for.
pub proof fn law_keeper(id: i64, keeper: LeaseKeeper, kept: i64, req: PbLeaseKeepAliveRequest)
    requires
        call_ensures(LeaseKeeper::new, (id,), keeper),
        call_ensures(LeaseKeeper::id, (&keeper,), kept),
        call_ensures(LeaseKeeper::keep_alive, (&keeper,), req),
    ensures
        keeper.id == id,
        kept == id,
        req.id == id,
{
}

/// What is read from the reply to a grant is what came over the wire.
pub proof fn law_grant_reads_back(
    pb: PbLeaseGrantResponse,
    resp: LeaseGrantResponse,
    header: Option<&ResponseHeader>,
    ttl: i64,
    id: i64,
    error: &str,
)
    requires
        call_ensures(LeaseGrantResponse::new, (pb,), resp),
        call_ensures(LeaseGrantResponse::header, (&resp,), header),
        call_ensures(LeaseGrantResponse::ttl, (&resp,), ttl),
        call_ensures(LeaseGrantResponse::id, (&resp,), id),
        call_ensures(LeaseGrantResponse::error, (&resp,), error),
    ensures
        resp.0 == pb,
        header is Some <==> pb.header is Some,
        header matches Some(h) ==> Some(*h) == pb.header,
        ttl == pb.ttl,
        id == pb.id,
        error@ == pb.error@,
{
}

/// What is read from the reply to a revocation is what came over the wire.
pub proof fn law_revoke_reads_back(
    pb: PbLeaseRevokeResponse,
    resp: LeaseRevokeResponse,
    header: Option<&ResponseHeader>,
)
    requires
        call_ensures(LeaseRevokeResponse::new, (pb,), resp),
        call_ensures(LeaseRevokeResponse::header, (&resp,), header),
    ensures
        resp.0 == pb,
        header is Some <==> pb.header is Some,
        header matches Some(h) ==> Some(*h) == pb.header,
{
}

/// What is read from the reply to a renewal is what came over the wire.
pub proof fn law_keep_alive_reads_back(
    pb: PbLeaseKeepAliveResponse,
    resp: LeaseKeepAliveResponse,
    header: Option<&ResponseHeader>,
    ttl: i64,
    id: i64,
)
    requires
        call_ensures(LeaseKeepAliveResponse::new, (pb,), resp),
        call_ensures(LeaseKeepAliveResponse::header, (&resp,), header),
        call_ensures(LeaseKeepAliveResponse::ttl, (&resp,), ttl),
        call_ensures(LeaseKeepAliveResponse::id, (&resp,), id),
    ensures
        resp.0 == pb,
        header is Some <==> pb.header is Some,
        header matches Some(h) ==> Some(*h) == pb.header,
        ttl == pb.ttl,
        id == pb.id,
{
}

/// What is read from the state of a lease is what came over the wire.
pub proof fn law_time_to_live_reads_back(
    pb: PbLeaseTimeToLiveResponse,
    resp: LeaseTimeToLiveResponse,
    header: Option<&ResponseHeader>,
    ttl: i64,
    id: i64,
    granted: i64,
    keys: &[Vec<u8>],
)
    requires
        call_ensures(LeaseTimeToLiveResponse::new, (pb,), resp),
        call_ensures(LeaseTimeToLiveResponse::header, (&resp,), header),
        call_ensures(LeaseTimeToLiveResponse::ttl, (&resp,), ttl),
        call_ensures(LeaseTimeToLiveResponse::id, (&resp,), id),
        call_ensures(LeaseTimeToLiveResponse::granted_ttl, (&resp,), granted),
        call_ensures(LeaseTimeToLiveResponse::keys, (&resp,), keys),
    ensures
        resp.0 == pb,
        header is Some <==> pb.header is Some,
        header matches Some(h) ==> Some(*h) == pb.header,
        ttl == pb.ttl,
        id == pb.id,
        granted == pb.granted_ttl,
        keys@ == pb.keys@,
{
}

/// What is read from the listing of leases is what came over the wire.
pub proof fn law_leases_read_back(
    pb: PbLeaseLeasesResponse,
    resp: LeaseLeasesResponse,
    header: Option<&ResponseHeader>,
    leases: &[LeaseStatus],
    status: LeaseStatus,
    id: i64,
)
    requires
        call_ensures(LeaseLeasesResponse::new, (pb,), resp),
        call_ensures(LeaseLeasesResponse::header, (&resp,), header),
        call_ensures(LeaseLeasesResponse::leases, (&resp,), leases),
        call_ensures(LeaseStatus::id, (&status,), id),
    ensures
        resp.0 == pb,
        header is Some <==> pb.header is Some,
        header matches Some(h) ==> Some(*h) == pb.header,
        leases@ == pb.leases@,
        id == status.0.id,
{
}

/// A header is taken once from the reply to a grant, which stays as it is without.
pub proof fn law_grant_header_is_taken(resp: &mut LeaseGrantResponse, r: Option<ResponseHeader>)
    requires
        call_ensures(LeaseGrantResponse::take_header, (resp,), r),
    ensures
        r == old(resp).0.header,
        final(resp).0.header is None,
        final(resp).0.id == old(resp).0.id,
        final(resp).0.ttl == old(resp).0.ttl,
        final(resp).0.error == old(resp).0.error,
{
}

/// A header is taken once from the reply to a revocation.
pub proof fn law_revoke_header_is_taken(resp: &mut LeaseRevokeResponse, r: Option<ResponseHeader>)
    requires
        call_ensures(LeaseRevokeResponse::take_header, (resp,), r),
    ensures
        r == old(resp).0.header,
        final(resp).0.header is None,
{
}

/// A header is taken once from the reply to a renewal, which stays as it is without.
pub proof fn law_keep_alive_header_is_taken(
    resp: &mut LeaseKeepAliveResponse,
    r: Option<ResponseHeader>,
)
    requires
        call_ensures(LeaseKeepAliveResponse::take_header, (resp,), r),
    ensures
        r == old(resp).0.header,
        final(resp).0.header is None,
        final(resp).0.id == old(resp).0.id,
        final(resp).0.ttl == old(resp).0.ttl,
{
}

/// A header is taken once from the state of a lease, which stays as it is without.
pub proof fn law_time_to_live_header_is_taken(
    resp: &mut LeaseTimeToLiveResponse,
    r: Option<ResponseHeader>,
)
    requires
        call_ensures(LeaseTimeToLiveResponse::take_header, (resp,), r),
    ensures
        r == old(resp).0.header,
        final(resp).0.header is None,
        final(resp).0.id == old(resp).0.id,
        final(resp).0.ttl == old(resp).0.ttl,
        final(resp).0.granted_ttl == old(resp).0.granted_ttl,
        final(resp).0.keys == old(resp).0.keys,
{
}

/// A header is taken once from the listing of leases, which stays as it is without.
pub proof fn law_leases_header_is_taken(resp: &mut LeaseLeasesResponse, r: Option<ResponseHeader>)
    requires
        call_ensures(LeaseLeasesResponse::take_header, (resp,), r),
    ensures
        r == old(resp).0.header,
        final(resp).0.header is None,
        final(resp).0.leases == old(resp).0.leases,
{
}

/// Stripping a prefix takes it off every key that begins with it, once, and leaves every
/// other key, their number and order, and all else of the response.
pub proof fn law_prefix_is_stripped(
    resp: &mut LeaseTimeToLiveResponse,
    prefix: &[u8],
    i: int,
    rest: Seq<u8>,
)
    requires
        call_ensures(LeaseTimeToLiveResponse::strip_keys_prefix, (resp, prefix), ()),
        0 <= i < old(resp).0.keys@.len(),
    ensures
        final(resp).0.keys@.len() == old(resp).0.keys@.len(),
        old(resp).0.keys@[i]@ == prefix@ + rest ==> final(resp).0.keys@[i]@ == rest,
        (forall|any: Seq<u8>| old(resp).0.keys@[i]@ != #[trigger] (prefix@ + any)) ==> final(resp).0.keys@[i]@ == old(resp).0.keys@[i]@,
        final(resp).0.header == old(resp).0.header,
        final(resp).0.id == old(resp).0.id,
        final(resp).0.ttl == old(resp).0.ttl,
        final(resp).0.granted_ttl == old(resp).0.granted_ttl,
{
    let before = crate::rpc::lease::key_views(old(resp).0.keys@);
    let after = crate::rpc::lease::key_views(final(resp).0.keys@);
    let stripped = before.map_values(
        |key: Seq<u8>| crate::rpc::lease::without_prefix(key, prefix@),
    );
    assert(after == stripped);
    assert(after.len() == stripped.len());
    assert(after[i] == stripped[i]);
    let key = old(resp).0.keys@[i]@;
    assert(before[i] == key);
    if key == prefix@ + rest {
        assert(key.take(prefix@.len() as int) =~= prefix@);
        assert(key.skip(prefix@.len() as int) =~= rest);
    }
    if forall|any: Seq<u8>| key != #[trigger] (prefix@ + any) {
        if crate::text::has_prefix(key, prefix@) {
            assert(key =~= prefix@ + key.skip(prefix@.len() as int));
        }
    }
}

/// A new lease client neither retries nor reconnects.
pub proof fn law_new_lease_client(r: LeaseClient)
    requires
        call_ensures(LeaseClient::new, (), r),
    ensures
        r.retry.max_attempts == 1,
        nanos(r.retry.backoff_wait) == 25_000_000,
        !r.retry.watch_reconnect,
        !r.retry.lease_reconnect,
        call_ensures(AtomicUsize::new, (1usize,), *r.retry.endpoint_count),
{
}

/// The failover that is installed is the client's.
pub proof fn law_lease_retry_is_installed(client: &mut LeaseClient, retry: RetryConfig)
    requires
        call_ensures(LeaseClient::set_retry, (client, retry), ()),
    ensures
        final(client).retry == retry,
{
}

/// A cloned lease client is the same one, with the same shared endpoint count.
pub proof fn law_lease_client_clone(client: LeaseClient, r: LeaseClient)
    requires
        call_ensures(<LeaseClient as Clone>::clone, (&client,), r),
    ensures
        r.retry == client.retry,
{
}

/// The first stream is opened like a read, within the budget. A rejected token is not
/// refreshed.
pub proof fn law_first_lease_stream(client: LeaseClient, run: RetryRun)
    requires
        call_ensures(LeaseClient::open_retrying, (&client,), run),
    ensures
        run.policy == RetryPolicy::Repeatable,
        !run.reauth,
        run.attempt == 0,
        client.retry.max_attempts >= 1 ==> run.max == client.retry.max_attempts,
        client.retry.max_attempts == 0 ==> run.max == 1,
{
}

/// The first reply on a stream decides. Without one, or with one that the lease has no
/// time to live, there is nothing to keep alive, and the error says which. Otherwise the
/// keeper is that of the lease, and a driver tracks it exactly if the client reconnects.
pub proof fn law_renewal_begins(
    client: LeaseClient,
    first: Option<PbLeaseKeepAliveResponse>,
    r: Result<LeaseStart, Error>,
)
    requires
        call_ensures(LeaseClient::keep_alive_opened, (&client, first), r),
    ensures
        first is None ==> (r matches Err(Error::WatchError(m)) && m@
            == "failed to create lease keeper"@),
        first matches Some(resp) ==> (resp.ttl <= 0 ==> (r matches Err(
            Error::LeaseKeepAliveError(m),
        ) && m@ == "lease not found"@)),
        first matches Some(resp) ==> (resp.ttl > 0 ==> (r matches Ok(start) && {
            &&& start.keeper.id == resp.id
            &&& start.driver is Some <==> client.retry.lease_reconnect
            &&& start.driver matches Some(driver) ==> {
                &&& driver.client == client
                &&& driver.retry == client.retry
                &&& forall|id: i64| #[trigger] driver.lease_ids@.contains(id) <==> id == resp.id
                &&& driver.reconnect_attempt == 0
                &&& driver.req_open
            }
        })),
{
}

} // verus!
