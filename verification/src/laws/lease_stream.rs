//! How the lease driver goes on after each event: what reaches the caller, what goes to
//! the server, and which leases are renewed.

use crate::error::Error;
use crate::failover::RetryPolicy;
use crate::laws::failover::{doubled_to_five_seconds, lemma_reaction, token_rejected};
use crate::rpc::lease::{LeaseKeepAliveResponse, PbLeaseKeepAliveRequest};
use crate::rpc::lease_driver::{LeaseAction, LeaseEvent, LeaseKeepAliveDriver};
use crate::status::Code;
use crate::time::nanos;
use core::time::Duration;
use vstd::prelude::*;

verus! {

/// The settings and the request side are the same.
pub open spec fn same_setup(a: LeaseKeepAliveDriver, b: LeaseKeepAliveDriver) -> bool {
    a.client == b.client && a.retry == b.retry && a.req_open == b.req_open
}

/// The same leases are tracked.
pub open spec fn same_leases(a: LeaseKeepAliveDriver, b: LeaseKeepAliveDriver) -> bool {
    forall|id: i64| #[trigger] a.lease_ids@.contains(id) <==> b.lease_ids@.contains(id)
}

/// No lease is tracked.
pub open spec fn no_lease(d: LeaseKeepAliveDriver) -> bool {
    forall|id: i64| !d.lease_ids@.contains(id)
}

/// Every response reaches the caller as it came. It proves the stream healthy, and a
/// lease without time to live is no longer tracked; every other one is.
pub proof fn law_renewal_is_delivered(
    d: &mut LeaseKeepAliveDriver,
    resp: LeaseKeepAliveResponse,
    action: LeaseAction,
)
    requires
        call_ensures(LeaseKeepAliveDriver::step, (d, LeaseEvent::Response(resp)), action),
    ensures
        action == LeaseAction::Deliver(resp),
        final(d).reconnect_attempt == 0,
        resp.0.ttl > 0 ==> same_leases(*old(d), *final(d)),
        resp.0.ttl <= 0 ==> forall|id: i64| #[trigger]
            final(d).lease_ids@.contains(id) <==> old(d).lease_ids@.contains(id) && id != resp.0.id,
        same_setup(*old(d), *final(d)),
{
}

/// Once a response was taken the driver stops exactly if no lease is left.
pub proof fn law_driver_ends_with_its_last_lease(d: &mut LeaseKeepAliveDriver, action: LeaseAction)
    requires
        call_ensures(LeaseKeepAliveDriver::step, (d, LeaseEvent::Delivered), action),
    ensures
        no_lease(*old(d)) ==> action is Stop,
        !no_lease(*old(d)) ==> action is Listen,
        same_leases(*old(d), *final(d)),
        same_setup(*old(d), *final(d)),
        final(d).reconnect_attempt == old(d).reconnect_attempt,
{
}

/// Every request of the caller goes to the server as it is, and its lease is tracked.
pub proof fn law_renewal_is_sent(
    d: &mut LeaseKeepAliveDriver,
    req: PbLeaseKeepAliveRequest,
    action: LeaseAction,
)
    requires
        call_ensures(LeaseKeepAliveDriver::step, (d, LeaseEvent::Request(req)), action),
    ensures
        action == LeaseAction::Send(req),
        forall|id: i64| #[trigger]
            final(d).lease_ids@.contains(id) <==> old(d).lease_ids@.contains(id) || id == req.id,
        same_setup(*old(d), *final(d)),
        final(d).reconnect_attempt == old(d).reconnect_attempt,
{
}

/// The driver stops when the caller is gone, and listens on, with nothing changed, when
/// a request was sent or a stream was opened. It listens to responses only once the
/// caller sends no more requests.
pub proof fn law_plain_events(d: &mut LeaseKeepAliveDriver, event: LeaseEvent, action: LeaseAction)
    requires
        call_ensures(LeaseKeepAliveDriver::step, (d, event), action),
        event is OutputClosed || event is DeliveryFailed || event is Sent || event is Opened || event
            is RequestsClosed,
    ensures
        event is OutputClosed || event is DeliveryFailed ==> action is Stop,
        event is Sent || event is Opened || event is RequestsClosed ==> action is Listen,
        event is RequestsClosed ==> !final(d).req_open,
        !(event is RequestsClosed) ==> final(d).req_open == old(d).req_open,
        same_leases(*old(d), *final(d)),
        final(d).client == old(d).client,
        final(d).retry == old(d).retry,
        final(d).reconnect_attempt == old(d).reconnect_attempt,
{
}

/// What follows when the stream broke: the driver stops exactly if the caller is gone or
/// no lease is tracked, and otherwise waits, twice as long with each attempt, up to five
/// seconds. The same leases stay tracked.
pub open spec fn breaks(
    before: LeaseKeepAliveDriver,
    output_closed: bool,
    after: LeaseKeepAliveDriver,
    action: LeaseAction,
) -> bool {
    &&& same_leases(before, after)
    &&& same_setup(before, after)
    &&& action is Stop <==> output_closed || no_lease(before)
    &&& action is Stop ==> after.reconnect_attempt == before.reconnect_attempt
    &&& !(action is Stop) ==> {
        &&& action matches LeaseAction::Wait(wait)
        &&& doubled_to_five_seconds(
            nanos(before.retry.backoff_wait),
            before.reconnect_attempt,
            wait,
        )
        &&& before.reconnect_attempt < u32::MAX ==> after.reconnect_attempt
            == before.reconnect_attempt + 1
        &&& before.reconnect_attempt == u32::MAX ==> after.reconnect_attempt == u32::MAX
    }
}

/// A broken stream, or one that does not take a request, ends the driver or is waited
/// out.
pub proof fn law_break_stops_or_waits(
    d: &mut LeaseKeepAliveDriver,
    event: LeaseEvent,
    output_closed: bool,
    action: LeaseAction,
)
    requires
        event == (LeaseEvent::StreamBroken { output_closed }) || event == (
        LeaseEvent::SendFailed { output_closed }),
        call_ensures(LeaseKeepAliveDriver::step, (d, event), action),
    ensures
        breaks(*old(d), output_closed, *final(d), action),
{
}

/// A stream that could not be opened is tried again only if the server was unavailable,
/// timed out or cancelled. Any other error, a rejected token among them, is handed to the
/// caller and ends the driver.
pub proof fn law_failed_open(
    d: &mut LeaseKeepAliveDriver,
    error: Error,
    output_closed: bool,
    action: LeaseAction,
)
    requires
        call_ensures(
            LeaseKeepAliveDriver::step,
            (d, LeaseEvent::OpenFailed { error, output_closed }),
            action,
        ),
    ensures
        !(error is GRpcStatus) ==> action == LeaseAction::GiveUp(error),
        error matches Error::GRpcStatus(status) ==> {
            &&& token_rejected(status) ==> action == LeaseAction::GiveUp(error)
            &&& status.code != Code::Unavailable && status.code != Code::DeadlineExceeded
                && status.code != Code::Cancelled ==> action == LeaseAction::GiveUp(error)
            &&& !token_rejected(status) && (status.code == Code::Unavailable || status.code
                == Code::DeadlineExceeded || status.code == Code::Cancelled) ==> breaks(
                *old(d),
                output_closed,
                *final(d),
                action,
            )
        },
        action is GiveUp ==> same_leases(*old(d), *final(d)) && same_setup(*old(d), *final(d))
            && final(d).reconnect_attempt == old(d).reconnect_attempt,
{
    lemma_reaction(error, RetryPolicy::Repeatable);
}

/// The wait before a broken stream is opened again; none if the driver is to stop.
pub proof fn law_reconnect(d: &mut LeaseKeepAliveDriver, output_closed: bool, r: Option<Duration>)
    requires
        call_ensures(LeaseKeepAliveDriver::reconnect, (d, output_closed), r),
    ensures
        r matches Some(wait) ==> breaks(
            *old(d),
            output_closed,
            *final(d),
            LeaseAction::Wait(wait),
        ),
        r is None ==> breaks(*old(d), output_closed, *final(d), LeaseAction::Stop),
{
}

/// The requests renew every tracked lease, each once, and nothing else.
pub open spec fn renews_all(d: LeaseKeepAliveDriver, reqs: Seq<PbLeaseKeepAliveRequest>) -> bool {
    &&& forall|i: int, j: int|
        0 <= i < j < reqs.len() ==> (#[trigger] reqs[i]).id != (#[trigger] reqs[j]).id
    &&& forall|i: int| 0 <= i < reqs.len() ==> d.lease_ids@.contains((#[trigger] reqs[i]).id)
    &&& forall|id: i64| #[trigger]
        d.lease_ids@.contains(id) ==> reqs.contains(PbLeaseKeepAliveRequest { id })
}

/// The requests that a replay consists of, one by one.
proof fn lemma_renews_all(d: LeaseKeepAliveDriver, reqs: Seq<PbLeaseKeepAliveRequest>)
    requires
        crate::rpc::lease_driver::renews(d.lease_ids@, reqs),
    ensures
        renews_all(d, reqs),
{
    let ids = reqs.map_values(|req: PbLeaseKeepAliveRequest| req.id);
    assert forall|i: int, j: int| 0 <= i < j < reqs.len() implies (#[trigger] reqs[i]).id != (
    #[trigger] reqs[j]).id by {
        assert(ids[i] != ids[j]);
    }
    assert forall|i: int| 0 <= i < reqs.len() implies d.lease_ids@.contains(
        (#[trigger] reqs[i]).id,
    ) by {
        assert(ids[i] == reqs[i].id);
        assert(ids.to_set().contains(ids[i]));
    }
    assert forall|id: i64| #[trigger] d.lease_ids@.contains(id) implies reqs.contains(
        PbLeaseKeepAliveRequest { id },
    ) by {
        assert(ids.to_set().contains(id));
        let i = choose|i: int| 0 <= i < ids.len() && ids[i] == id;
        assert(reqs[i] == PbLeaseKeepAliveRequest { id });
    }
}

/// After the wait a stream is opened with a renewal for every tracked lease, each once,
/// and nothing else.
pub proof fn law_reopened_stream_renews_every_lease(d: &mut LeaseKeepAliveDriver, action: LeaseAction)
    requires
        call_ensures(LeaseKeepAliveDriver::step, (d, LeaseEvent::Waited), action),
    ensures
        action matches LeaseAction::Open(reqs) && renews_all(*old(d), reqs@),
        same_leases(*old(d), *final(d)),
        same_setup(*old(d), *final(d)),
        final(d).reconnect_attempt == old(d).reconnect_attempt,
{
    lemma_renews_all(*old(d), action->Open_0@);
}

/// A replay renews every tracked lease, each once, and nothing else.
pub proof fn law_replay_renews_every_lease(
    d: LeaseKeepAliveDriver,
    reqs: Vec<PbLeaseKeepAliveRequest>,
)
    requires
        call_ensures(LeaseKeepAliveDriver::replay, (&d,), reqs),
    ensures
        renews_all(d, reqs@),
{
    lemma_renews_all(d, reqs@);
}

} // verus!
