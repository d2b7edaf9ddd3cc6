//! What holds of the watch driver over all events: no watch is lost, none is
//! resumed too late or too early, and none comes back once it is over.

use crate::failover::{law_reconnect_backoff_grows_to_the_cap, reconnect_nanos};
use crate::rpc::watch::{CreateView, Reply, RequestView, WatchResponse};
use crate::rpc::watch_driver::{
    assigned_id, duplicate_ack, ends_watch, first_free, idle, next_revision,
    recorded, replays, replays_in_order, request_views, revisions_fit, DriverView, Registry,
    WatchAction, WatchEvent, INVALID_WATCH_ID,
};
use crate::time::nanos;
use vstd::prelude::*;

verus! {

/// The response acknowledges, for the first time, the creation of a watch that
/// was requested from "now".
pub open spec fn pins_from_now(reg: Registry, r: Reply, id: i64) -> bool {
    &&& r.created
    &&& r.watch_id == id
    &&& !reg.acked.contains(id)
    &&& reg.watches[id].from_now
}

/// The registry after a sequence of responses.
pub open spec fn recorded_all(reg: Registry, replies: Seq<Reply>) -> Registry
    decreases replies.len(),
{
    if replies.len() == 0 {
        reg
    } else {
        recorded(recorded_all(reg, replies.drop_last()), replies.last())
    }
}

/// A response neither adds a watch nor changes anything of one but where it
/// resumes.
pub proof fn law_response_keeps_requests(reg: Registry, r: Reply, id: i64)
    requires
        recorded(reg, r).watches.contains_key(id),
    ensures
        reg.watches.contains_key(id),
        recorded(reg, r).watches[id] == reg.watches[id].resume_at(
            recorded(reg, r).watches[id].resume(),
        ),
{
    let w = reg.watches[id];
    assert(w =~= w.resume_at(w.resume()));
}

/// A response about one watch leaves every other watch as it is.
pub proof fn law_other_watches_untouched(reg: Registry, r: Reply, id: i64)
    requires
        id != r.watch_id,
        r.watch_id != INVALID_WATCH_ID || r.created || ends_watch(r),
        reg.watches.contains_key(id),
    ensures
        recorded(reg, r).watches.contains_key(id),
        recorded(reg, r).watches[id] == reg.watches[id],
        recorded(reg, r).acked.contains(id) == reg.acked.contains(id),
{
}

/// The resume point never goes back, except that the first acknowledgement of a
/// watch from "now" pins it.
pub proof fn law_resume_never_goes_back(reg: Registry, r: Reply, id: i64)
    requires
        revisions_fit(reg, r),
        recorded(reg, r).watches.contains_key(id),
        !pins_from_now(reg, r, id),
    ensures
        recorded(reg, r).watches[id].resume() >= reg.watches[id].resume(),
{
}

/// The revision after the last one that a response reports for a watch: after its
/// events or its progress, or after a broadcast progress. Acknowledgements, fragments
/// that more fragments follow, and responses about other watches report none.
pub open spec fn reported(r: Reply, id: i64) -> Option<int> {
    if ends_watch(r) || r.created {
        None
    } else if r.watch_id == INVALID_WATCH_ID {
        Some(r.revision + 1)
    } else if r.watch_id == id && !r.fragment {
        Some(next_revision(r))
    } else {
        None
    }
}

/// The furthest of `start` and what a sequence of responses reports for a watch.
pub open spec fn furthest(start: int, replies: Seq<Reply>, id: i64) -> int
    decreases replies.len(),
{
    if replies.len() == 0 {
        start
    } else {
        let before = furthest(start, replies.drop_last(), id);
        match reported(replies.last(), id) {
            Some(revision) => if revision > before {
                revision
            } else {
                before
            },
            None => before,
        }
    }
}

/// After any run of responses an active watch resumes right after the last revision
/// that they reported for it, or where it stood if they reported none further on. So
/// it never goes back, and it never skips a revision that was not reported. The run
/// holds no response that pins the watch to "now".
pub proof fn law_resume_after_the_last_reported(reg: Registry, replies: Seq<Reply>, id: i64)
    requires
        recorded_all(reg, replies).watches.contains_key(id),
        forall|n: int|
            #![trigger replies.take(n)]
            0 <= n < replies.len() ==> revisions_fit(
                recorded_all(reg, replies.take(n)),
                replies[n],
            ) && !pins_from_now(recorded_all(reg, replies.take(n)), replies[n], id),
    ensures
        reg.watches.contains_key(id),
        recorded_all(reg, replies).watches[id].resume() == furthest(
            reg.watches[id].resume() as int,
            replies,
            id,
        ),
        recorded_all(reg, replies).watches[id].resume() >= reg.watches[id].resume(),
    decreases replies.len(),
{
    if replies.len() > 0 {
        let before = replies.drop_last();
        let mid = recorded_all(reg, before);
        assert(replies.take(before.len() as int) =~= before);
        law_response_keeps_requests(mid, replies.last(), id);
        assert forall|n: int|
            #![trigger before.take(n)]
            0 <= n < before.len() implies revisions_fit(
            recorded_all(reg, before.take(n)),
            before[n],
        ) && !pins_from_now(recorded_all(reg, before.take(n)), before[n], id) by {
            assert(replies.take(n) =~= before.take(n));
        }
        law_resume_after_the_last_reported(reg, before, id);
    }
}

/// The resume point never skips what was not delivered: if it moves, it moves to
/// the revision right after the last one that the response reports.
pub proof fn law_resume_leaves_no_gap(reg: Registry, r: Reply, id: i64)
    requires
        revisions_fit(reg, r),
        recorded(reg, r).watches.contains_key(id),
        recorded(reg, r).watches[id].resume() != reg.watches[id].resume(),
    ensures
        recorded(reg, r).watches[id].resume() == if r.created || r.watch_id == INVALID_WATCH_ID {
            r.revision + 1
        } else {
            next_revision(r)
        },
        r.watch_id == id || r.watch_id == INVALID_WATCH_ID,
{
}

/// After a complete batch of events a watch resumes past the last of them, so none
/// is delivered twice.
pub proof fn law_events_advance_resume(reg: Registry, r: Reply)
    requires
        revisions_fit(reg, r),
        !ends_watch(r),
        !r.created,
        r.watch_id != INVALID_WATCH_ID,
        !r.fragment,
        r.last_event is Some,
        reg.watches.contains_key(r.watch_id),
    ensures
        recorded(reg, r).watches[r.watch_id].resume() > r.last_event->0,
        reg.watches[r.watch_id].resume() <= r.last_event->0 + 1 ==> recorded(
            reg,
            r,
        ).watches[r.watch_id].resume() == r.last_event->0 + 1,
{
}

/// A fragment that more fragments follow does not move the resume point.
pub proof fn law_fragment_holds_resume(reg: Registry, r: Reply)
    requires
        r.fragment,
        !r.created,
        !ends_watch(r),
        r.watch_id != INVALID_WATCH_ID,
    ensures
        recorded(reg, r) == reg,
{
}

/// A watch from "now" resumes, once it is acknowledged, at the revision after the
/// header's: where the server bound it.
pub proof fn law_from_now_is_pinned(reg: Registry, r: Reply)
    requires
        revisions_fit(reg, r),
        !ends_watch(r),
        reg.watches.contains_key(r.watch_id),
        pins_from_now(reg, r, r.watch_id),
    ensures
        recorded(reg, r).watches[r.watch_id].resume() == r.revision + 1,
{
}

/// A broadcast progress notification moves every watch past its revision.
pub proof fn law_broadcast_advances_all(reg: Registry, r: Reply, id: i64)
    requires
        revisions_fit(reg, r),
        r.watch_id == INVALID_WATCH_ID,
        !r.created,
        !ends_watch(r),
        reg.watches.contains_key(id),
    ensures
        recorded(reg, r).watches.contains_key(id),
        recorded(reg, r).watches[id].resume() > r.revision,
{
}

/// An acknowledgement reaches the caller once: the same one again is suppressed
/// and changes nothing.
pub proof fn law_ack_is_forwarded_once(reg: Registry, r: Reply)
    requires
        r.created,
        !ends_watch(r),
    ensures
        duplicate_ack(recorded(reg, r), r),
        recorded(recorded(reg, r), r) == recorded(reg, r),
{
}

/// Nothing but an acknowledgement is ever suppressed: events, progress and the end
/// of a watch always reach the caller.
pub proof fn law_only_acks_are_suppressed(reg: Registry, r: Reply)
    requires
        duplicate_ack(reg, r),
    ensures
        r.created,
        !r.canceled,
        r.compact_revision == 0,
        recorded(reg, r) == reg,
{
}

/// The first acknowledgement of a watch is not suppressed, and neither is the one
/// of a watch created again under an id whose watch has ended.
pub proof fn law_ended_watch_can_come_back(reg: Registry, end: Reply, ack: Reply)
    requires
        ends_watch(end),
        ack.watch_id == end.watch_id,
    ensures
        !duplicate_ack(recorded(reg, end), ack),
{
}

/// The first free id from `from` on is not below it and is not in use, and every id
/// between the two is in use; unless every id up to the largest is in use.
pub proof fn law_first_free(used: Set<i64>, from: i64, j: i64)
    ensures
        from <= first_free(used, from),
        first_free(used, from) < i64::MAX ==> !used.contains(first_free(used, from)),
        from <= j < first_free(used, from) ==> used.contains(j),
    decreases i64::MAX - from,
{
    if used.contains(from) && from < i64::MAX {
        law_first_free(used, (from + 1) as i64, j);
    }
}

/// Requests keep the registry well-formed: every watch stands under the id it is
/// created with, and the counter stays ahead of all of them.
pub proof fn law_request_keeps_wf(d: DriverView, req: RequestView)
    requires
        d.wf(),
        d.request_fits(req),
    ensures
        d.requested(req).wf(),
        d.requested(req).next_id >= d.next_id,
{
    if let RequestView::Create(create) = req {
        let used = d.registry.watches.dom();
        law_first_free(used, d.next_id, d.next_id);
        assert forall|id: i64| #[trigger]
            d.requested(req).registry.watches.contains_key(id) implies id < d.requested(req).next_id
            && d.requested(req).registry.watches[id].create.watch_id == id by {
            if id != assigned_id(create, d.next_id, used) {
                assert(d.registry.watches.contains_key(id));
            }
        }
    } else {
        assert(forall|id: i64| #[trigger]
            d.requested(req).registry.watches.contains_key(id)
                ==> d.registry.watches.contains_key(id));
    }
}

/// Responses keep the registry well-formed.
pub proof fn law_response_keeps_wf(d: DriverView, r: Reply)
    requires
        d.wf(),
    ensures
        d.replied(r).wf(),
{
    assert forall|id: i64| #[trigger]
        d.replied(r).registry.watches.contains_key(id) implies id < d.replied(r).next_id
        && d.replied(r).registry.watches[id].create.watch_id == id by {
        law_response_keeps_requests(d.registry, r, id);
    }
}

/// Every step of the driver keeps the registry well-formed.
pub proof fn law_step_keeps_wf(
    d: DriverView,
    wait: nat,
    event: WatchEvent,
    next: DriverView,
    action: WatchAction,
)
    requires
        d.wf(),
        d.admits(event),
        d.steps(wait, event, next, action),
    ensures
        next.wf(),
{
    match event {
        WatchEvent::Request(req) => law_request_keeps_wf(d, req@),
        WatchEvent::Response(resp) => law_response_keeps_wf(d, resp@),
        _ => {},
    }
}

/// A watch without an id of its own gets one that no active watch has, so that no
/// watch is dropped in its favour. It is neither 0 nor the broadcast id.
pub proof fn law_assigned_id_is_fresh(d: DriverView, create: CreateView, id: i64)
    requires
        d.wf(),
        create.watch_id == 0,
        d.request_fits(RequestView::Create(create)),
    ensures
        ({
            let fresh = assigned_id(create, d.next_id, d.registry.watches.dom());
            let after = d.requested(RequestView::Create(create)).registry.watches;
            &&& !d.registry.watches.contains_key(fresh)
            &&& fresh >= 1
            &&& after.contains_key(fresh)
            &&& d.registry.watches.contains_key(id) ==> after.contains_key(id) && after[id]
                == d.registry.watches[id]
        }),
{
    law_first_free(d.registry.watches.dom(), d.next_id, d.next_id);
}

/// A caller-chosen id is kept, and no id is assigned from it down afterwards.
pub proof fn law_chosen_id_is_kept(d: DriverView, create: CreateView, later: CreateView)
    requires
        d.wf(),
        create.watch_id != 0,
        later.watch_id == 0,
        d.request_fits(RequestView::Create(create)),
    ensures
        ({
            let next = d.requested(RequestView::Create(create));
            &&& d.outbound(RequestView::Create(create)) == RequestView::Create(create)
            &&& assigned_id(later, next.next_id, next.registry.watches.dom()) > create.watch_id
        }),
{
    let next = d.requested(RequestView::Create(create));
    law_first_free(next.registry.watches.dom(), next.next_id, next.next_id);
}

/// A replay creates each active watch exactly once, under its own id and from its
/// resume point, and nothing else.
pub proof fn law_replay_is_exact(d: DriverView, reqs: Seq<RequestView>, id: i64)
    requires
        d.wf(),
        d.registry.watches.contains_key(id),
        replays(d.registry.watches, reqs),
    ensures
        reqs.len() == d.registry.watches.dom().len(),
        exists|i: int|
            0 <= i < reqs.len() && #[trigger] reqs[i] == RequestView::Create(
                d.registry.watches[id].create,
            ),
        forall|i: int, j: int|
            0 <= i < j < reqs.len() ==> ((#[trigger] reqs[i])->Create_0).watch_id != ((
            #[trigger] reqs[j])->Create_0).watch_id,
        forall|i: int|
            0 <= i < reqs.len() ==> (#[trigger] reqs[i] matches RequestView::Create(create)
                && d.registry.watches.contains_key(create.watch_id) && create
                == d.registry.watches[create.watch_id].create),
{
    let watches = d.registry.watches;
    let ids = choose|ids: Seq<i64>| #[trigger] replays_in_order(watches, ids, reqs);
    assert(forall|i: int| 0 <= i < ids.len() ==> ids.to_set().contains(#[trigger] ids[i]));
    assert(forall|i: int| 0 <= i < ids.len() ==> watches.contains_key(#[trigger] ids[i]));
    ids.unique_seq_to_set();
    assert(ids.to_set().contains(id));
    let i = choose|i: int| 0 <= i < ids.len() && ids[i] == id;
    assert(reqs[i] == RequestView::Create(watches[id].create));
    assert forall|i: int| 0 <= i < reqs.len() implies (#[trigger] reqs[i] matches
        RequestView::Create(create) && create == watches[ids[i]].create && create.watch_id
        == ids[i]) by {
        assert(watches.contains_key(ids[i]));
    }
}

/// A watch that ended, whether canceled, compacted away or rejected, is not created
/// again by a replay.
pub proof fn law_ended_watch_is_not_replayed(d: DriverView, r: Reply, reqs: Seq<RequestView>)
    requires
        d.wf(),
        ends_watch(r),
        replays(d.replied(r).registry.watches, reqs),
    ensures
        !d.replied(r).registry.watches.contains_key(r.watch_id),
        forall|i: int|
            0 <= i < reqs.len() ==> ((#[trigger] reqs[i])->Create_0).watch_id != r.watch_id,
{
    law_response_keeps_wf(d, r);
    lemma_replays_only_active(d.replied(r), reqs, r.watch_id);
}

/// A watch that the caller canceled is not created again by a replay.
pub proof fn law_canceled_watch_is_not_replayed(d: DriverView, id: i64, reqs: Seq<RequestView>)
    requires
        d.wf(),
        replays(d.requested(RequestView::Cancel(id)).registry.watches, reqs),
    ensures
        !d.requested(RequestView::Cancel(id)).registry.watches.contains_key(id),
        forall|i: int|
            0 <= i < reqs.len() ==> ((#[trigger] reqs[i])->Create_0).watch_id != id,
{
    law_request_keeps_wf(d, RequestView::Cancel(id));
    lemma_replays_only_active(d.requested(RequestView::Cancel(id)), reqs, id);
}

/// No request of a replay creates a watch that is not active.
proof fn lemma_replays_only_active(d: DriverView, reqs: Seq<RequestView>, id: i64)
    requires
        d.wf(),
        !d.registry.watches.contains_key(id),
        replays(d.registry.watches, reqs),
    ensures
        forall|i: int|
            0 <= i < reqs.len() ==> ((#[trigger] reqs[i])->Create_0).watch_id != id,
{
    let watches = d.registry.watches;
    let ids = choose|ids: Seq<i64>| #[trigger] replays_in_order(watches, ids, reqs);
    assert forall|i: int| 0 <= i < reqs.len() implies ((#[trigger] reqs[i])->Create_0).watch_id
        != id by {
        assert(ids.to_set().contains(ids[i]));
        assert(watches.contains_key(ids[i]));
    }
}

/// A watch stays active through everything but its own end: a response that ends
/// it, the caller's cancel, or the caller's create under the same id.
pub proof fn law_watch_survives(
    d: DriverView,
    wait: nat,
    event: WatchEvent,
    next: DriverView,
    action: WatchAction,
    id: i64,
)
    requires
        d.steps(wait, event, next, action),
        d.registry.watches.contains_key(id),
        event matches WatchEvent::Response(resp) ==> !(ends_watch(resp@) && resp@.watch_id == id),
        event matches WatchEvent::Request(req) ==> {
            &&& req@ != RequestView::Cancel(id)
            &&& d.outbound(req@) matches RequestView::Create(create) ==> create.watch_id != id
        },
    ensures
        next.registry.watches.contains_key(id),
        event !is Response ==> next.registry.watches[id] == d.registry.watches[id],
{
}

/// A broken stream ends the driver exactly if the caller is gone or no watch is
/// active; otherwise a wait and then a replay follow.
pub proof fn law_break_stops_or_resumes(
    d: DriverView,
    wait: nat,
    output_closed: bool,
    next: DriverView,
    action: WatchAction,
)
    requires
        d.steps(wait, WatchEvent::StreamBroken { output_closed }, next, action),
    ensures
        action is Stop <==> output_closed || idle(d.registry.watches),
        action is Stop || action is Wait,
        next.registry == d.registry,
{
}

/// When a broken stream is reopened, it is with exactly the watches that were active
/// when it broke, each from where it stood.
pub proof fn law_reopened_stream_resumes_what_was_active(
    d: DriverView,
    wait: nat,
    waiting: DriverView,
    pause: WatchAction,
    next: DriverView,
    action: WatchAction,
)
    requires
        d.steps(wait, WatchEvent::StreamBroken { output_closed: false }, waiting, pause),
        pause is Wait,
        waiting.steps(wait, WatchEvent::Waited, next, action),
    ensures
        action matches WatchAction::Open(reqs) && replays(
            d.registry.watches,
            request_views(reqs@),
        ),
        next.registry == d.registry,
{
}

/// A response resets the reconnect backoff: if the stream breaks right after it, the
/// wait is the shortest one again.
pub proof fn law_response_resets_the_wait(
    d: DriverView,
    wait: nat,
    resp: WatchResponse,
    healthy: DriverView,
    delivery: WatchAction,
    next: DriverView,
    action: WatchAction,
)
    requires
        d.steps(wait, WatchEvent::Response(resp), healthy, delivery),
        healthy.steps(wait, WatchEvent::StreamBroken { output_closed: false }, next, action),
    ensures
        action matches WatchAction::Wait(pause) ==> nanos(pause) == reconnect_nanos(wait, 0),
{
}

/// Each failed attempt to reopen a stream is followed by a wait that is not shorter
/// than the one before, and never by an immediate attempt if the base wait is not
/// zero.
pub proof fn law_failed_reopen_waits_no_less(
    d: DriverView,
    wait: nat,
    broken: WatchEvent,
    waiting: DriverView,
    pause: WatchAction,
    failed: WatchEvent,
    next: DriverView,
    action: WatchAction,
)
    requires
        broken is StreamBroken || broken is SendFailed || broken is OpenFailed,
        failed is OpenFailed,
        d.steps(wait, broken, waiting, pause),
        pause is Wait,
        waiting.steps(wait, failed, next, action),
        action is Wait,
    ensures
        nanos(pause->Wait_0) <= nanos(action->Wait_0),
        wait > 0 ==> nanos(pause->Wait_0) > 0,
{
    law_reconnect_backoff_grows_to_the_cap(wait, d.attempt as nat, waiting.attempt as nat);
}

} // verus!
