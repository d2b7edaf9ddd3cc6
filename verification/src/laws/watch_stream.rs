//! How the watch driver goes on after each event: what reaches the caller, what goes to
//! the server, and where each watch resumes.

use crate::error::Error;
use crate::failover::RetryPolicy;
use crate::laws::failover::{doubled_to_five_seconds, lemma_reaction, token_rejected};
use crate::rpc::watch::{WatchCreateRequest, WatchRequest, WatchRequestUnion, WatchResponse};
use crate::rpc::watch_driver::{
    assign_watch_id, states, WatchAction, WatchDriver, WatchEvent, WatchState,
};
use crate::status::Code;
use crate::time::nanos;
use core::time::Duration;
use std::collections::{HashMap, HashSet};
use vstd::prelude::*;

verus! {

/// Two requests to create a watch agree but for the id and the revision to start from.
pub open spec fn same_filter(a: WatchCreateRequest, b: WatchCreateRequest) -> bool {
    &&& a.key@ == b.key@
    &&& a.range_end@ == b.range_end@
    &&& a.progress_notify == b.progress_notify
    &&& a.filters@ == b.filters@
    &&& a.prev_kv == b.prev_kv
    &&& a.fragment == b.fragment
}

/// Two requests create the same watch.
pub open spec fn same_create(a: WatchCreateRequest, b: WatchCreateRequest) -> bool {
    same_filter(a, b) && a.watch_id == b.watch_id && a.start_revision == b.start_revision
}

/// The same watch, resumed from wherever.
pub open spec fn same_watch(a: WatchState, b: WatchState) -> bool {
    &&& same_filter(a.create_req, b.create_req)
    &&& a.create_req.watch_id == b.create_req.watch_id
    &&& a.from_now == b.from_now
}

/// The same watch, resumed from the same revision.
pub open spec fn unchanged(a: WatchState, b: WatchState) -> bool {
    same_watch(a, b) && a.create_req.start_revision == b.create_req.start_revision
}

/// The same watches, each resumed from the same revision.
pub open spec fn all_unchanged(a: Map<i64, WatchState>, b: Map<i64, WatchState>) -> bool {
    forall|id: i64|
        (#[trigger] a.contains_key(id) <==> b.contains_key(id)) && (a.contains_key(id)
            ==> unchanged(a[id], b[id]))
}

/// The same watches, each resumed from the same revision, leaving one id aside.
pub open spec fn all_unchanged_but(
    a: Map<i64, WatchState>,
    b: Map<i64, WatchState>,
    aside: i64,
) -> bool {
    forall|id: i64|
        id != aside ==> (#[trigger] a.contains_key(id) <==> b.contains_key(id)) && (
        a.contains_key(id) ==> unchanged(a[id], b[id]))
}

/// The revision of the store when the response was sent.
pub open spec fn header_revision(resp: WatchResponse) -> i64 {
    match resp.0.header {
        Some(header) => header.revision,
        None => 0,
    }
}

/// The last revision that the response brings the watch up to: that of its last event,
/// or that of its header if it brings no event.
pub open spec fn up_to(resp: WatchResponse) -> i64 {
    if resp.0.events@.len() > 0 && resp.0.events@.last().0.kv is Some {
        resp.0.events@.last().0.kv->0.mod_revision
    } else {
        header_revision(resp)
    }
}

/// The watch that the response is about is over: canceled, or compacted away.
pub open spec fn over(resp: WatchResponse) -> bool {
    resp.0.canceled || resp.0.compact_revision != 0
}

/// The response is the echo of an acknowledgement that the caller has seen.
pub open spec fn echo(acked: Set<i64>, resp: WatchResponse) -> bool {
    resp.0.created && !resp.0.canceled && resp.0.compact_revision == 0 && acked.contains(
        resp.0.watch_id,
    )
}

/// The watch resumes after `revision`, or from where it resumed before if that is
/// further on.
pub open spec fn moved_past(before: WatchState, after: WatchState, revision: i64) -> bool {
    let start = before.create_req.start_revision;
    &&& same_watch(before, after)
    &&& after.create_req.start_revision == if start > revision {
        start as int
    } else {
        revision + 1
    }
}

/// How the watches and the acknowledged ids follow a response.
pub open spec fn follow(
    watches: Map<i64, WatchState>,
    acked: Set<i64>,
    resp: WatchResponse,
    after: Map<i64, WatchState>,
    acked_after: Set<i64>,
) -> bool {
    let about = resp.0.watch_id;
    if over(resp) {
        // The watch is dropped, and every other one stays.
        &&& !after.contains_key(about)
        &&& all_unchanged_but(watches, after, about)
        &&& forall|id: i64| #[trigger]
            acked_after.contains(id) <==> acked.contains(id) && id != about
    } else if resp.0.created {
        // The id is acknowledged. A watch from now on is pinned to what follows, once.
        &&& forall|id: i64| #[trigger]
            acked_after.contains(id) <==> acked.contains(id) || id == about
        &&& all_unchanged_but(watches, after, about)
        &&& watches.contains_key(about) <==> after.contains_key(about)
        &&& watches.contains_key(about) ==> {
            &&& same_watch(watches[about], after[about])
            &&& after[about].create_req.start_revision == if watches[about].from_now
                && !acked.contains(about) {
                header_revision(resp) + 1
            } else {
                watches[about].create_req.start_revision as int
            }
        }
    } else if about == -1 {
        // Progress of the whole stream moves every watch on.
        &&& acked_after == acked
        &&& forall|id: i64| #[trigger] watches.contains_key(id) <==> after.contains_key(id)
        &&& forall|id: i64| #[trigger]
            watches.contains_key(id) ==> moved_past(watches[id], after[id], header_revision(resp))
    } else {
        // Events move their watch on, unless more of the same revision is to come.
        &&& acked_after == acked
        &&& all_unchanged_but(watches, after, about)
        &&& watches.contains_key(about) <==> after.contains_key(about)
        &&& watches.contains_key(about) ==> if resp.0.fragment {
            unchanged(watches[about], after[about])
        } else {
            moved_past(watches[about], after[about], up_to(resp))
        }
    }
}

/// A revision that has to be counted on from the response is the last one there is.
pub open spec fn overruns(
    watches: Map<i64, WatchState>,
    acked: Set<i64>,
    resp: WatchResponse,
) -> bool {
    let about = resp.0.watch_id;
    if over(resp) || echo(acked, resp) {
        false
    } else if resp.0.created {
        watches.contains_key(about) && watches[about].from_now && header_revision(resp) == i64::MAX
    } else if about == -1 {
        header_revision(resp) == i64::MAX && exists|id: i64| watches.contains_key(id)
    } else {
        watches.contains_key(about) && !resp.0.fragment && (header_revision(resp) == i64::MAX
            || up_to(resp) == i64::MAX)
    }
}

/// The contents of a registry, id by id.
pub proof fn lemma_states(watches: Map<i64, WatchState>, id: i64)
    ensures
        states(watches).contains_key(id) <==> watches.contains_key(id),
        watches.contains_key(id) ==> states(watches)[id] == watches[id]@,
{
}

/// Registries with the same contents but for one id keep all other watches.
proof fn lemma_unchanged_but(a: Map<i64, WatchState>, b: Map<i64, WatchState>, aside: i64)
    requires
        states(a).remove(aside) == states(b).remove(aside),
    ensures
        all_unchanged_but(a, b, aside),
{
    assert forall|id: i64| id != aside implies (#[trigger] a.contains_key(id) <==> b.contains_key(
        id,
    )) && (a.contains_key(id) ==> unchanged(a[id], b[id])) by {
        lemma_states(a, id);
        lemma_states(b, id);
        assert(states(a).remove(aside).contains_key(id) <==> states(a).contains_key(id));
        assert(states(b).remove(aside).contains_key(id) <==> states(b).contains_key(id));
        if a.contains_key(id) {
            assert(states(a).remove(aside)[id] == states(a)[id]);
            assert(states(b).remove(aside)[id] == states(b)[id]);
        }
    }
}

/// How a registry that follows a response looks, id by id.
proof fn lemma_follow(
    watches: Map<i64, WatchState>,
    acked: Set<i64>,
    resp: WatchResponse,
    after: Map<i64, WatchState>,
    acked_after: Set<i64>,
)
    requires
        !overruns(watches, acked, resp),
        crate::rpc::watch_driver::registry(after, acked_after)
            == crate::rpc::watch_driver::recorded(
            crate::rpc::watch_driver::registry(watches, acked),
            resp@,
        ),
    ensures
        follow(watches, acked, resp, after, acked_after),
{
    let about = resp.0.watch_id;
    lemma_states(watches, about);
    lemma_states(after, about);
    if !over(resp) && !resp.0.created && about == -1 {
        assert forall|id: i64|
            (#[trigger] watches.contains_key(id) <==> after.contains_key(id)) && (
            watches.contains_key(id) ==> moved_past(
                watches[id],
                after[id],
                header_revision(resp),
            )) by {
            lemma_states(watches, id);
            lemma_states(after, id);
        }
    } else {
        assert(states(watches).remove(about) =~= states(after).remove(about));
        lemma_unchanged_but(watches, after, about);
    }
}

/// Every response reaches the caller, exactly as it came, but for the echo of an
/// acknowledgement that the caller has seen.
pub proof fn law_response_is_delivered(
    d: &mut WatchDriver,
    resp: WatchResponse,
    action: WatchAction,
)
    requires
        call_ensures(WatchDriver::step, (d, WatchEvent::Response(resp)), action),
    ensures
        !resp.0.created ==> action == WatchAction::Deliver(resp),
        resp.0.canceled ==> action == WatchAction::Deliver(resp),
        resp.0.compact_revision != 0 ==> action == WatchAction::Deliver(resp),
        !old(d).seen_created@.contains(resp.0.watch_id) ==> action == WatchAction::Deliver(resp),
        resp.0.created && !resp.0.canceled && resp.0.compact_revision == 0
            && old(d).seen_created@.contains(resp.0.watch_id) ==> action is Listen,
{
}

/// A response moves its watch on, acknowledges it or ends it, and touches no other watch
/// but for progress of the whole stream. It proves the stream healthy, so the next wait
/// is the shortest again.
pub proof fn law_response_is_recorded(d: &mut WatchDriver, resp: WatchResponse, action: WatchAction)
    requires
        !overruns(old(d).watches@, old(d).seen_created@, resp),
        call_ensures(WatchDriver::step, (d, WatchEvent::Response(resp)), action),
    ensures
        follow(
            old(d).watches@,
            old(d).seen_created@,
            resp,
            final(d).watches@,
            final(d).seen_created@,
        ),
        final(d).reconnect_attempt == 0,
        final(d).next_id == old(d).next_id,
        final(d).req_open == old(d).req_open,
        final(d).client == old(d).client,
        final(d).retry == old(d).retry,
{
    lemma_follow(
        old(d).watches@,
        old(d).seen_created@,
        resp,
        final(d).watches@,
        final(d).seen_created@,
    );
}

/// Recording a response is all that its delivery depends on.
pub proof fn law_record(
    watches: &mut HashMap<i64, WatchState>,
    acked: &mut HashSet<i64>,
    resp: WatchResponse,
    deliver: bool,
)
    requires
        !overruns(old(watches)@, old(acked)@, resp),
        call_ensures(WatchDriver::record, (watches, acked, &resp), deliver),
    ensures
        follow(old(watches)@, old(acked)@, resp, final(watches)@, final(acked)@),
        deliver <==> !echo(old(acked)@, resp),
{
    lemma_follow(old(watches)@, old(acked)@, resp, final(watches)@, final(acked)@);
}

/// A forwarded response is handed on as it is, or held back as an echo.
pub proof fn law_forward(d: &mut WatchDriver, resp: WatchResponse, r: Option<WatchResponse>)
    requires
        !overruns(old(d).watches@, old(d).seen_created@, resp),
        call_ensures(WatchDriver::forward, (d, resp), r),
    ensures
        !echo(old(d).seen_created@, resp) ==> r == Some(resp),
        echo(old(d).seen_created@, resp) ==> r is None,
        follow(
            old(d).watches@,
            old(d).seen_created@,
            resp,
            final(d).watches@,
            final(d).seen_created@,
        ),
        final(d).reconnect_attempt == old(d).reconnect_attempt,
        final(d).next_id == old(d).next_id,
        final(d).req_open == old(d).req_open,
        final(d).client == old(d).client,
        final(d).retry == old(d).retry,
{
    lemma_follow(
        old(d).watches@,
        old(d).seen_created@,
        resp,
        final(d).watches@,
        final(d).seen_created@,
    );
}

/// The watches, the acknowledged ids and the settings are the same.
pub open spec fn same_books(a: WatchDriver, b: WatchDriver) -> bool {
    &&& all_unchanged(a.watches@, b.watches@)
    &&& a.seen_created@ == b.seen_created@
    &&& a.next_id == b.next_id
    &&& a.client == b.client
    &&& a.retry == b.retry
}

/// Two drivers in the same state keep the same books.
proof fn lemma_same_books(a: WatchDriver, b: WatchDriver)
    requires
        states(a.watches@) == states(b.watches@),
        a.seen_created@ == b.seen_created@,
        a.next_id == b.next_id,
        a.same_settings(b),
    ensures
        same_books(a, b),
{
    assert forall|id: i64|
        (#[trigger] a.watches@.contains_key(id) <==> b.watches@.contains_key(id)) && (
        a.watches@.contains_key(id) ==> unchanged(a.watches@[id], b.watches@[id])) by {
        lemma_states(a.watches@, id);
        lemma_states(b.watches@, id);
    }
}

/// No watch is left.
pub open spec fn no_watch(d: WatchDriver) -> bool {
    forall|id: i64| !d.watches@.contains_key(id)
}

/// What follows when the stream broke: the driver stops exactly if the caller is gone or
/// no watch is left, and otherwise waits, twice as long with each attempt, up to five
/// seconds. No watch is touched.
pub open spec fn breaks(
    before: WatchDriver,
    output_closed: bool,
    after: WatchDriver,
    action: WatchAction,
) -> bool {
    &&& same_books(before, after)
    &&& before.req_open == after.req_open
    &&& action is Stop <==> output_closed || no_watch(before)
    &&& action is Stop ==> after.reconnect_attempt == before.reconnect_attempt
    &&& !(action is Stop) ==> {
        &&& action matches WatchAction::Wait(wait)
        &&& doubled_to_five_seconds(
            nanos(before.retry.backoff_wait),
            before.reconnect_attempt,
            wait,
        )
        &&& before.reconnect_attempt < u32::MAX ==> after.reconnect_attempt
            == before.reconnect_attempt + 1
        &&& before.reconnect_attempt == u32::MAX ==> after.reconnect_attempt == u32::MAX
    }
}

/// No watch is left exactly if none is registered.
proof fn lemma_idle(watches: Map<i64, WatchState>)
    ensures
        (forall|id: i64| !watches.contains_key(id)) <==> crate::rpc::watch_driver::idle(
            states(watches),
        ),
{
    if forall|id: i64| !watches.contains_key(id) {
        assert forall|id: i64| !states(watches).contains_key(id) by {
            lemma_states(watches, id);
        }
    } else {
        let id = choose|id: i64| watches.contains_key(id);
        lemma_states(watches, id);
    }
}

/// A broken stream, or one that does not take a request, ends the driver or is waited
/// out.
pub proof fn law_break_stops_or_waits(
    d: &mut WatchDriver,
    event: WatchEvent,
    output_closed: bool,
    action: WatchAction,
)
    requires
        event == (WatchEvent::StreamBroken { output_closed }) || event == (
        WatchEvent::SendFailed { output_closed }),
        call_ensures(WatchDriver::step, (d, event), action),
    ensures
        breaks(*old(d), output_closed, *final(d), action),
{
    lemma_idle(old(d).watches@);
    lemma_same_books(*old(d), *final(d));
}

/// A stream that could not be opened is tried again only if the server was unavailable,
/// timed out or cancelled. Any other error, a rejected token among them, is handed to the
/// caller and ends the driver.
pub proof fn law_failed_open(
    d: &mut WatchDriver,
    error: Error,
    output_closed: bool,
    action: WatchAction,
)
    requires
        call_ensures(WatchDriver::step, (d, WatchEvent::OpenFailed { error, output_closed }), action),
    ensures
        !(error is GRpcStatus) ==> action == WatchAction::GiveUp(error),
        error matches Error::GRpcStatus(status) ==> {
            &&& token_rejected(status) ==> action == WatchAction::GiveUp(error)
            &&& status.code != Code::Unavailable && status.code != Code::DeadlineExceeded
                && status.code != Code::Cancelled ==> action == WatchAction::GiveUp(error)
            &&& !token_rejected(status) && (status.code == Code::Unavailable || status.code
                == Code::DeadlineExceeded || status.code == Code::Cancelled) ==> breaks(
                *old(d),
                output_closed,
                *final(d),
                action,
            )
        },
        action is GiveUp ==> same_books(*old(d), *final(d)) && final(d).req_open == old(d).req_open
            && final(d).reconnect_attempt == old(d).reconnect_attempt,
{
    lemma_reaction(error, RetryPolicy::Repeatable);
    lemma_idle(old(d).watches@);
    lemma_same_books(*old(d), *final(d));
}

/// The wait before a broken stream is opened again; none if the driver is to stop.
pub proof fn law_reconnect(d: &mut WatchDriver, output_closed: bool, r: Option<Duration>)
    requires
        call_ensures(WatchDriver::reconnect, (d, output_closed), r),
    ensures
        r matches Some(wait) ==> breaks(
            *old(d),
            output_closed,
            *final(d),
            WatchAction::Wait(wait),
        ),
        r is None ==> breaks(*old(d), output_closed, *final(d), WatchAction::Stop),
{
    lemma_idle(old(d).watches@);
    lemma_same_books(*old(d), *final(d));
}

/// The request creates the watch from where it resumes.
pub open spec fn creates(req: WatchRequest, watch: WatchState) -> bool {
    req.request_union matches Some(WatchRequestUnion::CreateRequest(create)) && same_create(
        create,
        watch.create_req,
    )
}

/// The requests create every watch, each once and from where it resumes, in the order of
/// `ids`.
pub open spec fn creates_all(
    watches: Map<i64, WatchState>,
    ids: Seq<i64>,
    reqs: Seq<WatchRequest>,
) -> bool {
    &&& ids.len() == reqs.len()
    &&& forall|i: int, j: int| 0 <= i < j < ids.len() ==> ids[i] != ids[j]
    &&& forall|id: i64| #[trigger] watches.contains_key(id) <==> ids.contains(id)
    &&& forall|i: int| 0 <= i < ids.len() ==> creates(#[trigger] reqs[i], watches[ids[i]])
}

/// The requests that a replay consists of, one by one.
proof fn lemma_replay(watches: Map<i64, WatchState>, reqs: Seq<WatchRequest>) -> (ids: Seq<i64>)
    requires
        crate::rpc::watch_driver::replays(
            states(watches),
            crate::rpc::watch_driver::request_views(reqs),
        ),
    ensures
        creates_all(watches, ids, reqs),
{
    let views = crate::rpc::watch_driver::request_views(reqs);
    let ids = choose|ids: Seq<i64>| #[trigger]
        crate::rpc::watch_driver::replays_in_order(states(watches), ids, views);
    assert(views.len() == reqs.len());
    assert forall|id: i64| #[trigger] watches.contains_key(id) <==> ids.contains(id) by {
        lemma_states(watches, id);
        assert(ids.to_set().contains(id) <==> ids.contains(id));
        assert(states(watches).dom().contains(id) <==> states(watches).contains_key(id));
    }
    assert forall|i: int| 0 <= i < ids.len() implies creates(
        #[trigger] reqs[i],
        watches[ids[i]],
    ) by {
        assert(ids.contains(ids[i]));
        lemma_states(watches, ids[i]);
        assert(views[i] == reqs[i]@);
        assert(views[i] == crate::rpc::watch::RequestView::Create(states(watches)[ids[i]].create));
    }
    ids
}

/// After the wait a stream is opened with every watch on it, each once and from where it
/// resumes, and with nothing else.
pub proof fn law_reopened_stream_carries_every_watch(d: &mut WatchDriver, action: WatchAction) -> (ids:
    Seq<i64>)
    requires
        call_ensures(WatchDriver::step, (d, WatchEvent::Waited), action),
    ensures
        action matches WatchAction::Open(reqs) && creates_all(old(d).watches@, ids, reqs@),
        same_books(*old(d), *final(d)),
        final(d).req_open == old(d).req_open,
        final(d).reconnect_attempt == old(d).reconnect_attempt,
{
    lemma_same_books(*old(d), *final(d));
    lemma_replay(old(d).watches@, action->Open_0@)
}

/// A replay creates every watch, each once and from where it resumes.
pub proof fn law_replay_creates_every_watch(d: WatchDriver, reqs: Vec<WatchRequest>) -> (ids: Seq<
    i64,
>)
    requires
        call_ensures(WatchDriver::replay, (&d,), reqs),
    ensures
        creates_all(d.watches@, ids, reqs@),
{
    lemma_replay(d.watches@, reqs@)
}

/// The driver stops when the caller is gone, and otherwise listens on, with nothing
/// changed, when a request was sent, a response was taken or a stream was opened. It
/// listens to responses only once the caller sends no more requests.
pub proof fn law_plain_events(d: &mut WatchDriver, event: WatchEvent, action: WatchAction)
    requires
        call_ensures(WatchDriver::step, (d, event), action),
        event is OutputClosed || event is DeliveryFailed || event is Sent || event is Delivered
            || event is Opened || event is RequestsClosed,
    ensures
        event is OutputClosed || event is DeliveryFailed ==> action is Stop,
        event is Sent || event is Delivered || event is Opened || event is RequestsClosed ==> action
            is Listen,
        event is RequestsClosed ==> !final(d).req_open,
        !(event is RequestsClosed) ==> final(d).req_open == old(d).req_open,
        same_books(*old(d), *final(d)),
        final(d).reconnect_attempt == old(d).reconnect_attempt,
{
    lemma_same_books(*old(d), *final(d));
}

/// The id that a new watch gets is the one it asked for; or, if it asked for none, the
/// least one from the counter on that no watch has.
pub open spec fn gets_id(
    asked: i64,
    counter: i64,
    watches: Map<i64, WatchState>,
    id: i64,
) -> bool {
    if asked != 0 {
        id == asked
    } else {
        &&& counter <= id
        &&& !watches.contains_key(id)
        &&& forall|other: i64| counter <= other < id ==> #[trigger] watches.contains_key(other)
    }
}

/// There is an id for the new watch, and the counter can move past it.
pub open spec fn has_id(asked: i64, counter: i64, watches: Map<i64, WatchState>) -> bool {
    if asked != 0 {
        asked < i64::MAX
    } else {
        exists|id: i64| counter <= id < i64::MAX && !(#[trigger] watches.contains_key(id))
    }
}

/// The counter is past every id that was given, and never goes back.
pub open spec fn counts_past(counter: i64, id: i64, after: i64) -> bool {
    after == if id < counter {
        counter as int
    } else {
        id + 1
    }
}

/// What the first free id is.
proof fn lemma_first_free(used: Set<i64>, from: i64, free: i64)
    requires
        from <= free < i64::MAX,
        !used.contains(free),
    ensures
        ({
            let id = crate::rpc::watch_driver::first_free(used, from);
            &&& from <= id <= free
            &&& !used.contains(id)
            &&& forall|other: i64| from <= other < id ==> #[trigger] used.contains(other)
        }),
    decreases free - from,
{
    if used.contains(from) {
        lemma_first_free(used, (from + 1) as i64, free);
    }
}

/// What id a new watch gets, and where the counter goes.
proof fn lemma_assigned(
    create: WatchCreateRequest,
    counter: i64,
    watches: Map<i64, WatchState>,
    used: Set<i64>,
)
    requires
        has_id(create.watch_id, counter, watches),
        used == watches.dom(),
    ensures
        ({
            let id = crate::rpc::watch_driver::assigned_id(create@, counter, used);
            let after = crate::rpc::watch_driver::counter_after(create@, counter, used);
            &&& gets_id(create.watch_id, counter, watches, id)
            &&& after <= i64::MAX
            &&& counts_past(counter, id, after as i64)
        }),
{
    if create.watch_id == 0 {
        let free = choose|id: i64|
            counter <= id < i64::MAX && !(#[trigger] watches.contains_key(id));
        lemma_first_free(used, counter, free);
        let id = crate::rpc::watch_driver::first_free(used, counter);
        assert forall|other: i64| counter <= other < id implies #[trigger] watches.contains_key(
            other,
        ) by {
            assert(used.contains(other));
        }
    }
}

/// Assigning an id changes nothing of the request but its id.
pub proof fn law_assigned_id(
    create: &mut WatchCreateRequest,
    counter: &mut i64,
    watches: HashMap<i64, WatchState>,
    id: i64,
)
    requires
        has_id(old(create).watch_id, *old(counter), watches@),
        call_ensures(assign_watch_id, (create, counter, &watches), id),
    ensures
        gets_id(old(create).watch_id, *old(counter), watches@, id),
        counts_past(*old(counter), id, *final(counter)),
        same_filter(*old(create), *final(create)),
        final(create).start_revision == old(create).start_revision,
        final(create).watch_id == id,
{
    lemma_assigned(*old(create), *old(counter), watches@, watches@.dom());
}

/// How a request of the caller is taken in and passed on: a create with its id, and
/// registered under that to be replayed as it was asked for; a cancel as it is, and its
/// watch dropped; anything else as it is.
pub open spec fn takes_request(
    before: WatchDriver,
    req: WatchRequest,
    after: WatchDriver,
    out: WatchRequest,
) -> bool {
    &&& match req.request_union {
        Some(WatchRequestUnion::CreateRequest(create)) => {
            &&& out.request_union matches Some(WatchRequestUnion::CreateRequest(sent))
            &&& gets_id(create.watch_id, before.next_id, before.watches@, sent.watch_id)
            &&& same_filter(create, sent)
            &&& sent.start_revision == create.start_revision
            &&& after.watches@.contains_key(sent.watch_id)
            &&& same_create(after.watches@[sent.watch_id].create_req, sent)
            &&& after.watches@[sent.watch_id].from_now <==> create.start_revision == 0
            &&& all_unchanged_but(before.watches@, after.watches@, sent.watch_id)
            &&& counts_past(before.next_id, sent.watch_id, after.next_id)
            &&& after.seen_created@ == before.seen_created@
        },
        Some(WatchRequestUnion::CancelRequest(cancel)) => {
            &&& out.request_union matches Some(WatchRequestUnion::CancelRequest(sent))
            &&& sent.watch_id == cancel.watch_id
            &&& !after.watches@.contains_key(cancel.watch_id)
            &&& all_unchanged_but(before.watches@, after.watches@, cancel.watch_id)
            &&& forall|id: i64| #[trigger]
                after.seen_created@.contains(id) <==> before.seen_created@.contains(id) && id
                    != cancel.watch_id
            &&& after.next_id == before.next_id
        },
        Some(WatchRequestUnion::ProgressRequest(_)) => {
            &&& out.request_union matches Some(WatchRequestUnion::ProgressRequest(_))
            &&& same_books(before, after)
        },
        None => {
            &&& out.request_union is None
            &&& same_books(before, after)
        },
    }
    &&& after.reconnect_attempt == before.reconnect_attempt
    &&& after.req_open == before.req_open
    &&& after.client == before.client
    &&& after.retry == before.retry
}

/// There is an id for the watch that the request creates, if it creates one.
pub open spec fn can_take(d: WatchDriver, req: WatchRequest) -> bool {
    req.request_union matches Some(WatchRequestUnion::CreateRequest(create)) ==> has_id(
        create.watch_id,
        d.next_id,
        d.watches@,
    )
}

/// A request that was taken in, in terms of the driver's state.
proof fn lemma_takes_request(
    before: WatchDriver,
    req: WatchRequest,
    after: WatchDriver,
    out: WatchRequest,
)
    requires
        can_take(before, req),
        out@ == before@.outbound(req@),
        after@ == before@.requested(req@),
        after.same_settings(before),
    ensures
        takes_request(before, req, after, out),
{
    assert(states(before.watches@).dom() =~= before.watches@.dom());
    match req.request_union {
        Some(WatchRequestUnion::CreateRequest(create)) => {
            lemma_assigned(
                create,
                before.next_id,
                before.watches@,
                states(before.watches@).dom(),
            );
            let id = crate::rpc::watch_driver::assigned_id(
                create@,
                before.next_id,
                states(before.watches@).dom(),
            );
            lemma_states(before.watches@, id);
            lemma_states(after.watches@, id);
            assert(states(before.watches@).remove(id) =~= states(after.watches@).remove(id));
            lemma_unchanged_but(before.watches@, after.watches@, id);
        },
        Some(WatchRequestUnion::CancelRequest(cancel)) => {
            let id = cancel.watch_id;
            lemma_states(after.watches@, id);
            assert(states(before.watches@).remove(id) =~= states(after.watches@).remove(id));
            lemma_unchanged_but(before.watches@, after.watches@, id);
        },
        _ => {
            lemma_same_books(before, after);
        },
    }
}

/// Every request of the caller goes to the server, and is taken in.
pub proof fn law_request_is_sent(d: &mut WatchDriver, req: WatchRequest, action: WatchAction)
    requires
        can_take(*old(d), req),
        call_ensures(WatchDriver::step, (d, WatchEvent::Request(req)), action),
    ensures
        action matches WatchAction::Send(out) && takes_request(*old(d), req, *final(d), out),
{
    lemma_takes_request(*old(d), req, *final(d), action->Send_0);
}

/// A request of the caller is taken in, and what is to be passed on is returned.
pub proof fn law_user_request_is_applied(d: &mut WatchDriver, req: WatchRequest, out: WatchRequest)
    requires
        can_take(*old(d), req),
        call_ensures(WatchDriver::apply_user_request, (d, req), out),
    ensures
        takes_request(*old(d), req, *final(d), out),
{
    lemma_takes_request(*old(d), req, *final(d), out);
}

/// The counter is past the id of every watch, and each is registered under its own.
pub open spec fn orderly(d: WatchDriver) -> bool {
    &&& d.next_id >= 1
    &&& forall|id: i64| #[trigger]
        d.watches@.contains_key(id) ==> id < d.next_id && d.watches@[id].create_req.watch_id == id
}

/// An orderly driver is a well-formed one.
proof fn lemma_orderly(d: WatchDriver)
    ensures
        orderly(d) <==> d@.wf(),
{
    if orderly(d) {
        assert forall|id: i64| #[trigger] d@.registry.watches.contains_key(id) implies id
            < d.next_id && d@.registry.watches[id].create.watch_id == id by {
            lemma_states(d.watches@, id);
            assert(d.watches@.contains_key(id));
        }
    }
    if d@.wf() {
        assert forall|id: i64| #[trigger] d.watches@.contains_key(id) implies id < d.next_id
            && d.watches@[id].create_req.watch_id == id by {
            lemma_states(d.watches@, id);
            assert(d@.registry.watches.contains_key(id));
        }
    }
}

/// Every event but two kinds is accepted always: a create is as long as ids last, and a
/// response as long as the revisions that it asks for do.
pub proof fn law_accepted_events(d: WatchDriver, event: WatchEvent, r: bool)
    requires
        orderly(d),
        call_ensures(WatchDriver::accepts, (&d, &event), r),
    ensures
        !(event is Request) && !(event is Response) ==> r,
        event matches WatchEvent::Request(req) ==> (r <==> (req.request_union matches Some(
            WatchRequestUnion::CreateRequest(create),
        ) ==> if create.watch_id == 0 {
            d.next_id < i64::MAX
        } else {
            create.watch_id < i64::MAX
        })),
        event matches WatchEvent::Response(resp) ==> (r <==> !overruns(d.watches@, d.seen_created@, resp)),
{
    lemma_orderly(d);
    if let WatchEvent::Request(req) = event {
        if let Some(WatchRequestUnion::CreateRequest(create)) = req.request_union {
            assert(!d@.registry.watches.contains_key(d.next_id));
            assert(!d@.registry.watches.dom().contains(d.next_id));
        }
    }
    if let WatchEvent::Response(resp) = event {
        lemma_idle(d.watches@);
        lemma_states(d.watches@, resp.0.watch_id);
    }
}

/// An orderly driver stays so.
pub proof fn law_driver_stays_orderly(d: &mut WatchDriver, event: WatchEvent, action: WatchAction)
    requires
        orderly(*old(d)),
        event matches WatchEvent::Request(req) ==> can_take(*old(d), req),
        event matches WatchEvent::Response(resp) ==> !overruns(
            old(d).watches@,
            old(d).seen_created@,
            resp,
        ),
        call_ensures(WatchDriver::step, (d, event), action),
    ensures
        orderly(*final(d)),
{
    match event {
        WatchEvent::Request(req) => {
            lemma_takes_request(*old(d), req, *final(d), action->Send_0);
        },
        WatchEvent::Response(resp) => {
            lemma_follow(
                old(d).watches@,
                old(d).seen_created@,
                resp,
                final(d).watches@,
                final(d).seen_created@,
            );
        },
        _ => {
            lemma_same_books(*old(d), *final(d));
        },
    }
    assert forall|id: i64| #[trigger] final(d).watches@.contains_key(id) implies id
        < final(d).next_id && final(d).watches@[id].create_req.watch_id == id by {
        if old(d).watches@.contains_key(id) {
            assert(id < old(d).next_id);
            assert(old(d).watches@[id].create_req.watch_id == id);
        } else {
            assert(event is Request);
        }
    }
}

/// The driver takes every event, but for a create that no id is left for and a response
/// with the last revision there is.
pub proof fn law_driver_takes_every_event(d: &mut WatchDriver, event: WatchEvent)
    requires
        event matches WatchEvent::Request(req) ==> can_take(*old(d), req),
        event matches WatchEvent::Response(resp) ==> !overruns(
            old(d).watches@,
            old(d).seen_created@,
            resp,
        ),
    ensures
        call_requires(WatchDriver::step, (d, event)),
        event matches WatchEvent::Request(req) ==> call_requires(
            WatchDriver::apply_user_request,
            (d, req),
        ),
        event matches WatchEvent::Response(resp) ==> call_requires(
            WatchDriver::forward,
            (d, resp),
        ),
{
    match event {
        WatchEvent::Request(req) => {
            if let Some(WatchRequestUnion::CreateRequest(create)) = req.request_union {
                assert(states(old(d).watches@).dom() =~= old(d).watches@.dom());
                lemma_assigned(
                    create,
                    old(d).next_id,
                    old(d).watches@,
                    states(old(d).watches@).dom(),
                );
            }
        },
        WatchEvent::Response(resp) => {
            lemma_idle(old(d).watches@);
            lemma_states(old(d).watches@, resp.0.watch_id);
        },
        _ => {},
    }
}

/// A watch gets an id as long as there is one.
pub proof fn law_id_is_assigned_if_there_is_one(
    create: &mut WatchCreateRequest,
    counter: &mut i64,
    watches: HashMap<i64, WatchState>,
)
    requires
        has_id(old(create).watch_id, *old(counter), watches@),
    ensures
        call_requires(assign_watch_id, (create, counter, &watches)),
{
    lemma_assigned(*old(create), *old(counter), watches@, watches@.dom());
}

/// A response is recorded as long as the revisions that it asks for last.
pub proof fn law_response_can_be_recorded(
    watches: &mut HashMap<i64, WatchState>,
    acked: &mut HashSet<i64>,
    resp: WatchResponse,
)
    requires
        !overruns(old(watches)@, old(acked)@, resp),
    ensures
        call_requires(WatchDriver::record, (watches, acked, &resp)),
{
    lemma_idle(old(watches)@);
    lemma_states(old(watches)@, resp.0.watch_id);
}

/// An orderly driver can be asked of any event.
pub proof fn law_orderly_driver_can_be_asked(d: WatchDriver, event: WatchEvent)
    requires
        orderly(d),
    ensures
        call_requires(WatchDriver::accepts, (&d, &event)),
{
    lemma_orderly(d);
}

} // verus!
