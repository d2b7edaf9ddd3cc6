//! The driver that keeps lease renewals going across broken streams.

use crate::error::Error;
use crate::failover::{
    classify, decision, law_reconnect_backoff_grows_to_the_cap, reconnect_nanos, Decision,
    RetryConfig, RetryPolicy,
};
use crate::rpc::lease::{LeaseClient, LeaseKeepAliveResponse, PbLeaseKeepAliveRequest};
use crate::time::nanos;
use core::time::Duration;
use std::collections::HashSet;
use vstd::prelude::*;
use vstd::std_specs::iter::IteratorSpec;

verus! {

broadcast use vstd::std_specs::hash::group_hash_axioms;

/// Background task that keeps a lease's keep-alive stream alive across
/// connection failures. On a broken stream it re-establishes and re-sends a
/// keep-alive for each active lease. A lease that expired during the outage
/// surfaces as a `ttl <= 0` response, after which it stops being tracked.
#[derive(Debug)]
pub struct LeaseKeepAliveDriver {
    pub client: LeaseClient,
    pub retry: RetryConfig,
    pub lease_ids: HashSet<i64>,
    /// Consecutive reconnect attempts without an intervening response, used to
    /// grow the reconnect backoff. Reset to 0 once the stream delivers again.
    pub reconnect_attempt: u32,
    /// The caller may still send requests.
    pub req_open: bool,
}

/// The state of a [`LeaseKeepAliveDriver`].
#[verifier::ext_equal]
pub struct LeaseDriverView {
    pub leases: Set<i64>,
    pub attempt: u32,
    pub req_open: bool,
}

impl View for LeaseKeepAliveDriver {
    type V = LeaseDriverView;

    open spec fn view(&self) -> LeaseDriverView {
        LeaseDriverView {
            leases: self.lease_ids@,
            attempt: self.reconnect_attempt,
            req_open: self.req_open,
        }
    }
}

/// An event that the driver reacts to.
#[derive(Debug)]
pub enum LeaseEvent {
    /// The caller dropped the response stream.
    OutputClosed,
    /// The caller sent a request.
    Request(PbLeaseKeepAliveRequest),
    /// The caller dropped the request side.
    RequestsClosed,
    /// The request was passed on to the stream.
    Sent,
    /// The stream did not take the request.
    SendFailed { output_closed: bool },
    /// The stream delivered a response.
    Response(LeaseKeepAliveResponse),
    /// The caller took the response.
    Delivered,
    /// The caller dropped the response stream before taking the response.
    DeliveryFailed,
    /// The stream ended or failed.
    StreamBroken { output_closed: bool },
    /// The wait is over.
    Waited,
    /// A new stream is open.
    Opened,
    /// No new stream could be opened.
    OpenFailed { error: Error, output_closed: bool },
}

/// What the driver does next.
#[derive(Debug)]
pub enum LeaseAction {
    /// Await the next response, the next request if the request side is open, or
    /// the end of the response stream's receiver.
    Listen,
    /// Pass the request on to the stream.
    Send(PbLeaseKeepAliveRequest),
    /// Hand the response to the caller.
    Deliver(LeaseKeepAliveResponse),
    /// Wait, with jitter, before a new stream is opened.
    Wait(Duration),
    /// Open a new stream with these requests queued.
    Open(Vec<PbLeaseKeepAliveRequest>),
    /// Hand the error to the caller and stop.
    GiveUp(Error),
    /// Stop.
    Stop,
}

/// `reqs` renews the leases, each once and in some order.
pub open spec fn renews(leases: Set<i64>, reqs: Seq<PbLeaseKeepAliveRequest>) -> bool {
    let ids = reqs.map_values(|req: PbLeaseKeepAliveRequest| req.id);
    ids.no_duplicates() && ids.to_set() == leases
}

/// No lease is tracked.
pub open spec fn untracked(leases: Set<i64>) -> bool {
    forall|id: i64| !leases.contains(id)
}

impl LeaseDriverView {
    /// The state after a request of the caller.
    pub open spec fn requested(self, id: i64) -> LeaseDriverView {
        LeaseDriverView { leases: self.leases.insert(id), ..self }
    }

    /// The state after a response: the stream is known to be healthy, and a lease
    /// without time to live is gone.
    pub open spec fn replied(self, id: i64, ttl: i64) -> LeaseDriverView {
        LeaseDriverView {
            leases: if ttl <= 0 {
                self.leases.remove(id)
            } else {
                self.leases
            },
            attempt: 0,
            ..self
        }
    }

    /// There is nobody to serve, or nothing to renew.
    pub open spec fn finished(self, output_closed: bool) -> bool {
        output_closed || untracked(self.leases)
    }

    /// The state when one more stream is about to be opened.
    pub open spec fn reconnecting(self) -> LeaseDriverView {
        LeaseDriverView {
            attempt: if self.attempt < u32::MAX {
                (self.attempt + 1) as u32
            } else {
                self.attempt
            },
            ..self
        }
    }

    /// The driver, with a base wait of `wait` nanoseconds, takes the action and
    /// goes over to the state `next` when its stream is broken.
    pub open spec fn reconnects(
        self,
        wait: nat,
        output_closed: bool,
        next: LeaseDriverView,
        action: LeaseAction,
    ) -> bool {
        if self.finished(output_closed) {
            action is Stop && next == self
        } else {
            &&& action matches LeaseAction::Wait(d)
            &&& nanos(d) == reconnect_nanos(wait, self.attempt as nat)
            &&& next == self.reconnecting()
        }
    }

    /// The driver, with a base wait of `wait` nanoseconds, takes the action and
    /// goes over to the state `next` on the event.
    pub open spec fn steps(
        self,
        wait: nat,
        event: LeaseEvent,
        next: LeaseDriverView,
        action: LeaseAction,
    ) -> bool {
        match event {
            LeaseEvent::OutputClosed | LeaseEvent::DeliveryFailed => {
                action is Stop && next == self
            },
            LeaseEvent::Request(req) => {
                action == LeaseAction::Send(req) && next == self.requested(req.id)
            },
            LeaseEvent::RequestsClosed => {
                action is Listen && next == (LeaseDriverView { req_open: false, ..self })
            },
            LeaseEvent::Sent | LeaseEvent::Opened => action is Listen && next == self,
            LeaseEvent::Response(resp) => {
                &&& action == LeaseAction::Deliver(resp)
                &&& next == self.replied(resp.0.id, resp.0.ttl)
            },
            LeaseEvent::Delivered => {
                &&& action == if untracked(self.leases) {
                    LeaseAction::Stop
                } else {
                    LeaseAction::Listen
                }
                &&& next == self
            },
            LeaseEvent::SendFailed { output_closed } => self.reconnects(
                wait,
                output_closed,
                next,
                action,
            ),
            LeaseEvent::StreamBroken { output_closed } => self.reconnects(
                wait,
                output_closed,
                next,
                action,
            ),
            LeaseEvent::Waited => {
                &&& action matches LeaseAction::Open(reqs)
                &&& renews(self.leases, reqs@)
                &&& next == self
            },
            LeaseEvent::OpenFailed { error, output_closed } => {
                if decision(error, RetryPolicy::Repeatable) == Decision::Retry {
                    self.reconnects(wait, output_closed, next, action)
                } else {
                    action == LeaseAction::GiveUp(error) && next == self
                }
            },
        }
    }
}

impl LeaseKeepAliveDriver {
    /// The same stream settings.
    pub open spec fn same_settings(self, other: LeaseKeepAliveDriver) -> bool {
        self.client == other.client && self.retry == other.retry
    }

    /// No lease is tracked.
    fn is_done(&self) -> (r: bool)
        ensures
            r == untracked(self@.leases),
    {
        let r = self.lease_ids.is_empty();
        proof {
            if r || untracked(self.lease_ids@) {
                assert(self.lease_ids@ =~= Set::<i64>::empty());
            }
        }
        r
    }

    /// Begins to re-establish the stream: the wait before it is opened again.
    /// Returns `None` to stop the driver: the caller gave up, or no leases remain.
    pub fn reconnect(&mut self, output_closed: bool) -> (r: Option<Duration>)
        ensures
            match r {
                None => old(self)@.finished(output_closed) && final(self)@ == old(self)@,
                Some(wait) => {
                    &&& !old(self)@.finished(output_closed)
                    &&& nanos(wait) == reconnect_nanos(
                        nanos(old(self).retry.backoff_wait),
                        old(self)@.attempt as nat,
                    )
                    &&& final(self)@ == old(self)@.reconnecting()
                },
            },
            final(self).same_settings(*old(self)),
    {
        if output_closed || self.is_done() {
            return None;
        }
        // Always wait before opening: a stream that establishes then immediately
        // breaks would otherwise hot-loop with no floor. The delay grows until a
        // response arrives, which resets the counter.
        let wait = self.retry.reconnect_backoff(self.reconnect_attempt);
        if self.reconnect_attempt < u32::MAX {
            self.reconnect_attempt = self.reconnect_attempt + 1;
        }
        Some(wait)
    }

    /// The requests that renew the active leases.
    pub fn replay(&self) -> (r: Vec<PbLeaseKeepAliveRequest>)
        ensures
            renews(self@.leases, r@),
    {
        let mut reqs: Vec<PbLeaseKeepAliveRequest> = Vec::new();
        let ghost ids: Seq<i64> = vstd::std_specs::hash::spec_hash_keys_iter(
            &self.lease_ids,
        ).remaining().unref();
        for id in it: self.lease_ids.iter()
            invariant
                it.seq().unref() == ids,
                reqs@.map_values(|req: PbLeaseKeepAliveRequest| req.id) == ids.take(
                    it.index() as int,
                ),
        {
            let ghost before = reqs@;
            reqs.push(PbLeaseKeepAliveRequest { id: *id });
            assert(reqs@.map_values(|req: PbLeaseKeepAliveRequest| req.id) =~= before.map_values(
                |req: PbLeaseKeepAliveRequest| req.id,
            ).push(*id));
            assert(ids.take(it.index() + 1) =~= ids.take(it.index() as int).push(*id));
        }
        assert(reqs@.map_values(|req: PbLeaseKeepAliveRequest| req.id) =~= ids);
        reqs
    }

    /// What follows when the stream broke.
    fn after_break(&mut self, output_closed: bool) -> (r: LeaseAction)
        ensures
            old(self)@.reconnects(
                nanos(old(self).retry.backoff_wait),
                output_closed,
                final(self)@,
                r,
            ),
            final(self).same_settings(*old(self)),
    {
        match self.reconnect(output_closed) {
            Some(wait) => LeaseAction::Wait(wait),
            None => LeaseAction::Stop,
        }
    }

    /// One step of the driver: the event is taken in, and the action says what to
    /// do next. A run begins with [`LeaseAction::Listen`] on an open stream.
    pub fn step(&mut self, event: LeaseEvent) -> (r: LeaseAction)
        ensures
            old(self)@.steps(nanos(old(self).retry.backoff_wait), event, final(self)@, r),
            final(self).same_settings(*old(self)),
    {
        match event {
            LeaseEvent::OutputClosed | LeaseEvent::DeliveryFailed => LeaseAction::Stop,
            LeaseEvent::Request(req) => {
                self.lease_ids.insert(req.id);
                LeaseAction::Send(req)
            },
            LeaseEvent::RequestsClosed => {
                self.req_open = false;
                LeaseAction::Listen
            },
            LeaseEvent::Sent | LeaseEvent::Opened => LeaseAction::Listen,
            LeaseEvent::Response(resp) => {
                // A delivered response proves the stream is healthy.
                self.reconnect_attempt = 0;
                // A ttl<=0 response means the lease is gone: stop tracking it, but
                // still deliver the response so the caller sees it.
                if resp.ttl() <= 0 {
                    self.lease_ids.remove(&resp.id());
                }
                LeaseAction::Deliver(resp)
            },
            LeaseEvent::Delivered => if self.is_done() {
                LeaseAction::Stop
            } else {
                LeaseAction::Listen
            },
            LeaseEvent::SendFailed { output_closed } => self.after_break(output_closed),
            LeaseEvent::StreamBroken { output_closed } => self.after_break(output_closed),
            LeaseEvent::Waited => LeaseAction::Open(self.replay()),
            LeaseEvent::OpenFailed { error, output_closed } => {
                // A permanent error (e.g. an expired auth token the driver cannot
                // refresh) would otherwise retry forever as a silent hang.
                match classify(&error, RetryPolicy::Repeatable) {
                    Decision::Retry => self.after_break(output_closed),
                    _ => LeaseAction::GiveUp(error),
                }
            },
        }
    }
}

/// A reopened stream renews every tracked lease exactly once, and nothing else.
pub proof fn law_every_lease_is_renewed(
    d: LeaseDriverView,
    wait: nat,
    next: LeaseDriverView,
    action: LeaseAction,
    id: i64,
)
    requires
        d.steps(wait, LeaseEvent::Waited, next, action),
    ensures
        action matches LeaseAction::Open(reqs) && {
            &&& d.leases.contains(id) <==> exists|i: int|
                0 <= i < reqs@.len() && (#[trigger] reqs@[i]).id == id
            &&& forall|i: int, j: int|
                0 <= i < j < reqs@.len() ==> (#[trigger] reqs@[i]).id != (#[trigger] reqs@[j]).id
        },
{
    let reqs = action->Open_0@;
    let ids = reqs.map_values(|req: PbLeaseKeepAliveRequest| req.id);
    assert forall|i: int, j: int| 0 <= i < j < reqs.len() implies (#[trigger] reqs[i]).id != (
    #[trigger] reqs[j]).id by {
        assert(ids[i] != ids[j]);
    }
    if d.leases.contains(id) {
        assert(ids.to_set().contains(id));
        let i = choose|i: int| 0 <= i < ids.len() && ids[i] == id;
        assert(reqs[i].id == id);
    }
    if exists|i: int| 0 <= i < reqs.len() && (#[trigger] reqs[i]).id == id {
        let i = choose|i: int| 0 <= i < reqs.len() && (#[trigger] reqs[i]).id == id;
        assert(ids[i] == id);
        assert(ids.to_set().contains(id));
    }
}

/// A lease stays tracked through everything but a response that it has expired.
pub proof fn law_lease_survives(
    d: LeaseDriverView,
    wait: nat,
    event: LeaseEvent,
    next: LeaseDriverView,
    action: LeaseAction,
    id: i64,
)
    requires
        d.steps(wait, event, next, action),
        d.leases.contains(id),
        event matches LeaseEvent::Response(resp) ==> !(resp.0.id == id && resp.0.ttl <= 0),
    ensures
        next.leases.contains(id),
{
}

/// An expired lease is delivered to the caller, is no longer tracked, and ends the
/// driver if it was the last one.
pub proof fn law_expired_lease_is_dropped(
    d: LeaseDriverView,
    wait: nat,
    resp: LeaseKeepAliveResponse,
    next: LeaseDriverView,
    action: LeaseAction,
    last: LeaseDriverView,
    end: LeaseAction,
)
    requires
        resp.0.ttl <= 0,
        d.steps(wait, LeaseEvent::Response(resp), next, action),
        next.steps(wait, LeaseEvent::Delivered, last, end),
    ensures
        action == LeaseAction::Deliver(resp),
        !next.leases.contains(resp.0.id),
        d.leases == set![resp.0.id] ==> end is Stop,
        end is Stop ==> forall|id: i64| d.leases.contains(id) ==> id == resp.0.id,
{
    if end is Stop {
        assert forall|id: i64| d.leases.contains(id) implies id == resp.0.id by {
            assert(!next.leases.contains(id));
        }
    }
}

/// Every response reaches the caller, and every request of the caller the stream.
pub proof fn law_nothing_is_held_back(
    d: LeaseDriverView,
    wait: nat,
    event: LeaseEvent,
    next: LeaseDriverView,
    action: LeaseAction,
)
    requires
        d.steps(wait, event, next, action),
    ensures
        event matches LeaseEvent::Response(resp) ==> action == LeaseAction::Deliver(resp),
        event matches LeaseEvent::Request(req) ==> action == LeaseAction::Send(req)
            && next.leases.contains(req.id),
{
}

/// A broken stream ends the driver exactly if the caller is gone or no lease is
/// tracked; otherwise a wait and then the renewals follow.
pub proof fn law_break_stops_or_resumes(
    d: LeaseDriverView,
    wait: nat,
    output_closed: bool,
    next: LeaseDriverView,
    action: LeaseAction,
)
    requires
        d.steps(wait, LeaseEvent::StreamBroken { output_closed }, next, action),
    ensures
        action is Stop <==> output_closed || untracked(d.leases),
        action is Stop || action is Wait,
        next.leases == d.leases,
{
}

/// A response resets the reconnect backoff: if the stream breaks right after it, the
/// wait is the shortest one again.
pub proof fn law_response_resets_the_wait(
    d: LeaseDriverView,
    wait: nat,
    resp: LeaseKeepAliveResponse,
    healthy: LeaseDriverView,
    delivery: LeaseAction,
    next: LeaseDriverView,
    action: LeaseAction,
)
    requires
        d.steps(wait, LeaseEvent::Response(resp), healthy, delivery),
        healthy.steps(wait, LeaseEvent::StreamBroken { output_closed: false }, next, action),
    ensures
        action matches LeaseAction::Wait(pause) ==> nanos(pause) == reconnect_nanos(wait, 0),
{
}

/// Each failed attempt to reopen a stream is followed by a wait that is not shorter
/// than the one before, and never by an immediate attempt if the base wait is not
/// zero.
pub proof fn law_failed_reopen_waits_no_less(
    d: LeaseDriverView,
    wait: nat,
    broken: LeaseEvent,
    waiting: LeaseDriverView,
    pause: LeaseAction,
    failed: LeaseEvent,
    next: LeaseDriverView,
    action: LeaseAction,
)
    requires
        broken is StreamBroken || broken is SendFailed || broken is OpenFailed,
        failed is OpenFailed,
        d.steps(wait, broken, waiting, pause),
        pause is Wait,
        waiting.steps(wait, failed, next, action),
        action is Wait,
    ensures
        nanos(pause->Wait_0) <= nanos(action->Wait_0),
        wait > 0 ==> nanos(pause->Wait_0) > 0,
{
    law_reconnect_backoff_grows_to_the_cap(wait, d.attempt as nat, waiting.attempt as nat);
}

} // verus!
