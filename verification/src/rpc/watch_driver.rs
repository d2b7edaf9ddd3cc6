//! The driver that keeps watches alive across broken streams: a registry of the
//! active watches, each with the revision to resume from, and the steps that
//! follow each event on the stream.

use crate::error::Error;
use crate::failover::{classify, decision, reconnect_nanos, Decision, RetryConfig, RetryPolicy};
use crate::rpc::watch::{
    last_event_revision, CreateView, Reply, RequestView, WatchClient, WatchCreateRequest,
    WatchRequest, WatchRequestUnion, WatchResponse,
};
use crate::time::nanos;
use core::time::Duration;
use std::collections::{HashMap, HashSet};
use vstd::prelude::*;
use vstd::std_specs::iter::IteratorSpec;

verus! {

broadcast use vstd::std_specs::hash::group_hash_axioms;

/// Broadcast progress notifications (a progress request names no watcher) carry
/// this sentinel id and apply to every watch on the stream.
pub const INVALID_WATCH_ID: i64 = -1;

/// Per-watch state the driver keeps so it can replay a watch after a reconnect.
/// `create_req.start_revision` holds the resume point.
#[derive(Debug)]
pub struct WatchState {
    pub create_req: WatchCreateRequest,
    /// The watch was requested from "now" (start revision 0), so it has no
    /// history to replay and its resume point is pinned once created.
    pub from_now: bool,
}

/// The contents of a [`WatchState`].
#[verifier::ext_equal]
pub struct StateView {
    pub create: CreateView,
    pub from_now: bool,
}

impl View for WatchState {
    type V = StateView;

    open spec fn view(&self) -> StateView {
        StateView { create: self.create_req@, from_now: self.from_now }
    }
}

impl StateView {
    /// The revision from which the watch is replayed.
    pub open spec fn resume(self) -> i64 {
        self.create.start_revision
    }

    /// The same watch, to be replayed from `revision`.
    pub open spec fn resume_at(self, revision: i64) -> StateView {
        StateView { create: CreateView { start_revision: revision, ..self.create }, ..self }
    }

    /// The same watch, to be replayed from `revision` if that is further on.
    pub open spec fn advanced_to(self, revision: i64) -> StateView {
        if revision > self.resume() {
            self.resume_at(revision)
        } else {
            self
        }
    }
}

/// The contents of a registry of watches.
pub open spec fn states(watches: Map<i64, WatchState>) -> Map<i64, StateView> {
    watches.map_values(|w: WatchState| w@)
}

/// The active watches by id, and the ids whose creation was acknowledged to the
/// caller.
#[verifier::ext_equal]
pub struct Registry {
    pub watches: Map<i64, StateView>,
    pub acked: Set<i64>,
}

/// No watch is active.
pub open spec fn idle(watches: Map<i64, StateView>) -> bool {
    forall|id: i64| !watches.contains_key(id)
}

/// The registry that two collections hold.
pub open spec fn registry(watches: Map<i64, WatchState>, acked: Set<i64>) -> Registry {
    Registry { watches: states(watches), acked }
}

/// The watch is gone: canceled, or its revision was compacted away.
pub open spec fn ends_watch(r: Reply) -> bool {
    r.canceled || r.compact_revision != 0
}

/// The response acknowledges a creation that was acknowledged before.
pub open spec fn duplicate_ack(reg: Registry, r: Reply) -> bool {
    r.created && !ends_watch(r) && reg.acked.contains(r.watch_id)
}

/// The revision after the last one that the response delivers: after its last
/// event, or after the header's revision if it is a progress notification.
pub open spec fn next_revision(r: Reply) -> int {
    match r.last_event {
        Some(revision) => revision + 1,
        None => r.revision + 1,
    }
}

/// The registry after a response.
pub open spec fn recorded(reg: Registry, r: Reply) -> Registry {
    let id = r.watch_id;
    if ends_watch(r) {
        Registry { watches: reg.watches.remove(id), acked: reg.acked.remove(id) }
    } else if r.created {
        if reg.acked.contains(id) {
            reg
        } else {
            Registry {
                watches: if reg.watches.contains_key(id) && reg.watches[id].from_now {
                    reg.watches.insert(id, reg.watches[id].resume_at((r.revision + 1) as i64))
                } else {
                    reg.watches
                },
                acked: reg.acked.insert(id),
            }
        }
    } else if id == INVALID_WATCH_ID {
        Registry {
            watches: reg.watches.map_values(
                |w: StateView| w.advanced_to((r.revision + 1) as i64),
            ),
            ..reg
        }
    } else if reg.watches.contains_key(id) && !r.fragment {
        Registry {
            watches: reg.watches.insert(
                id,
                reg.watches[id].advanced_to(next_revision(r) as i64),
            ),
            ..reg
        }
    } else {
        reg
    }
}

/// The revisions that follow those in the response, where they are asked for,
/// are 64-bit numbers.
pub open spec fn revisions_fit(reg: Registry, r: Reply) -> bool {
    let id = r.watch_id;
    if ends_watch(r) || duplicate_ack(reg, r) {
        true
    } else if r.created {
        reg.watches.contains_key(id) && reg.watches[id].from_now ==> r.revision < i64::MAX
    } else if id == INVALID_WATCH_ID {
        !idle(reg.watches) ==> r.revision < i64::MAX
    } else {
        reg.watches.contains_key(id) && !r.fragment ==> {
            &&& r.revision < i64::MAX
            &&& r.last_event matches Some(revision) ==> revision < i64::MAX
        }
    }
}

/// The registry of watches after one of them got a new state.
proof fn lemma_states_insert(watches: Map<i64, WatchState>, id: i64, state: WatchState)
    ensures
        states(watches.insert(id, state)) == states(watches).insert(id, state@),
{
    assert(states(watches.insert(id, state)) =~= states(watches).insert(id, state@));
}

/// The registry of watches after one of them is gone.
proof fn lemma_states_remove(watches: Map<i64, WatchState>, id: i64)
    ensures
        states(watches.remove(id)) == states(watches).remove(id),
{
    assert(states(watches.remove(id)) =~= states(watches).remove(id));
}

/// No watch is active.
fn is_idle(watches: &HashMap<i64, WatchState>) -> (r: bool)
    ensures
        r == idle(states(watches@)),
{
    let r = watches.is_empty();
    proof {
        assert(states(watches@).dom() =~= watches@.dom());
        if r {
            assert(watches@.dom() =~= Set::<i64>::empty());
        } else if idle(states(watches@)) {
            assert(watches@.dom() =~= Set::<i64>::empty());
        }
    }
    r
}

/// Moves the resume point of one watch on to `revision`, if that is further on.
fn advance(watches: &mut HashMap<i64, WatchState>, id: i64, revision: i64)
    requires
        states(old(watches)@).contains_key(id),
    ensures
        states(final(watches)@) == states(old(watches)@).insert(
            id,
            states(old(watches)@)[id].advanced_to(revision),
        ),
{
    if let Some(mut state) = watches.remove(&id) {
        let ghost before = state@;
        if revision > state.create_req.start_revision {
            state.create_req.start_revision = revision;
        }
        proof {
            assert(state@ =~= before.advanced_to(revision));
            lemma_states_remove(old(watches)@, id);
            lemma_states_insert(old(watches)@.remove(id), id, state);
        }
        watches.insert(id, state);
        assert(states(watches@) =~= states(old(watches)@).insert(id, before.advanced_to(revision)));
    }
}

/// The ids of all watches, each once.
fn watch_ids(watches: &HashMap<i64, WatchState>) -> (r: Vec<i64>)
    ensures
        r@.no_duplicates(),
        r@.to_set() == watches@.dom(),
{
    let mut ids: Vec<i64> = Vec::new();
    let ghost keys: Seq<i64> = vstd::std_specs::hash::spec_keys_iter(watches).remaining().unref();
    for id in it: watches.keys()
        invariant
            it.seq().unref() == keys,
            ids@ == keys.take(it.index() as int),
    {
        ids.push(*id);
        assert(ids@ =~= keys.take(it.index() + 1));
    }
    assert(ids@ =~= keys);
    ids
}

/// Moves the resume point of every watch on to `revision`, if that is further on.
fn advance_all(watches: &mut HashMap<i64, WatchState>, revision: i64)
    ensures
        states(final(watches)@) == states(old(watches)@).map_values(
            |w: StateView| w.advanced_to(revision),
        ),
{
    let ids = watch_ids(watches);
    let ghost before = states(old(watches)@);
    assert(forall|i: int| 0 <= i < ids@.len() ==> ids@.to_set().contains(#[trigger] ids@[i]));
    let mut i: usize = 0;
    while i < ids.len()
        invariant
            i <= ids@.len(),
            ids@.no_duplicates(),
            forall|j: int| 0 <= j < ids@.len() ==> before.contains_key(#[trigger] ids@[j]),
            states(watches@).dom() == before.dom(),
            forall|j: int|
                0 <= j < i ==> states(watches@)[#[trigger] ids@[j]] == before[ids@[j]].advanced_to(
                    revision,
                ),
            forall|j: int|
                i <= j < ids@.len() ==> states(watches@)[#[trigger] ids@[j]] == before[ids@[j]],
        decreases ids@.len() - i,
    {
        let id = ids[i];
        let ghost current = states(watches@);
        assert(current.contains_key(ids@[i as int]));
        advance(watches, id, revision);
        assert(states(watches@).dom() =~= before.dom());
        i += 1;
    }
    assert forall|id: i64| before.contains_key(id) implies states(watches@)[id]
        == before[id].advanced_to(revision) by {
        assert(ids@.to_set().contains(id));
        let j = choose|j: int| 0 <= j < ids@.len() && ids@[j] == id;
        assert(ids@[j] == id);
    }
    assert(states(watches@) =~= before.map_values(|w: StateView| w.advanced_to(revision)));
}

/// The first id from `from` on that is not in use; `i64::MAX` if every one is.
pub open spec fn first_free(used: Set<i64>, from: i64) -> i64
    decreases i64::MAX - from,
{
    if used.contains(from) && from < i64::MAX {
        first_free(used, (from + 1) as i64)
    } else {
        from
    }
}

/// The id that a new watch gets: the one it asks for, or else the first free one
/// from the counter on.
pub open spec fn assigned_id(create: CreateView, next_id: i64, used: Set<i64>) -> i64 {
    if create.watch_id == 0 {
        first_free(used, next_id)
    } else {
        create.watch_id
    }
}

/// The id counter after a new watch got its id: past that id, and never lower.
pub open spec fn counter_after(create: CreateView, next_id: i64, used: Set<i64>) -> int {
    let id = assigned_id(create, next_id, used);
    if id < next_id {
        next_id as int
    } else {
        id + 1
    }
}

/// There is an id for the new watch, and the counter can move past it.
pub open spec fn id_fits(create: CreateView, next_id: i64, used: Set<i64>) -> bool {
    counter_after(create, next_id, used) <= i64::MAX
}

/// Assigns a stable client-side watch id: honors a caller-provided non-zero id,
/// otherwise draws the next free id from `next_id`.
pub fn assign_watch_id(
    create: &mut WatchCreateRequest,
    next_id: &mut i64,
    watches: &HashMap<i64, WatchState>,
) -> (r: i64)
    requires
        id_fits(old(create)@, *old(next_id), watches@.dom()),
    ensures
        r == assigned_id(old(create)@, *old(next_id), watches@.dom()),
        final(create)@ == (CreateView { watch_id: r, ..old(create)@ }),
        *final(next_id) == counter_after(old(create)@, *old(next_id), watches@.dom()),
{
    if create.watch_id == 0 {
        // Skip ids already in use so an auto-assigned id never overwrites a
        // caller-assigned one: the registry is keyed by id, so a clash would
        // silently drop a watch.
        while watches.contains_key(next_id)
            invariant
                first_free(watches@.dom(), *next_id) == first_free(watches@.dom(), *old(next_id)),
                first_free(watches@.dom(), *old(next_id)) < i64::MAX,
                *old(next_id) <= *next_id,
            decreases i64::MAX - *next_id,
        {
            *next_id = *next_id + 1;
        }
        create.watch_id = *next_id;
        *next_id = *next_id + 1;
    } else if *next_id <= create.watch_id {
        // Keep the auto counter ahead of caller-chosen ids to avoid a later clash.
        *next_id = create.watch_id + 1;
    }
    create.watch_id
}

/// Background task that keeps a watch alive across connection failures: it owns
/// the gRPC stream, forwards responses to the caller, tracks each watch's resume
/// revision, and re-establishes the stream on a healthy endpoint when it breaks.
#[derive(Debug)]
pub struct WatchDriver {
    pub client: WatchClient,
    pub retry: RetryConfig,
    pub watches: HashMap<i64, WatchState>,
    /// Watch ids whose `created` ack was already delivered, so the duplicate
    /// echoed after a reconnect replay is suppressed.
    pub seen_created: HashSet<i64>,
    pub next_id: i64,
    /// Consecutive reconnect attempts without an intervening response, used to
    /// grow the reconnect backoff. Reset to 0 once the stream delivers again.
    pub reconnect_attempt: u32,
    /// The caller may still send requests.
    pub req_open: bool,
}

/// The state of a [`WatchDriver`].
#[verifier::ext_equal]
pub struct DriverView {
    pub registry: Registry,
    pub next_id: i64,
    pub attempt: u32,
    pub req_open: bool,
}

impl View for WatchDriver {
    type V = DriverView;

    open spec fn view(&self) -> DriverView {
        DriverView {
            registry: registry(self.watches@, self.seen_created@),
            next_id: self.next_id,
            attempt: self.reconnect_attempt,
            req_open: self.req_open,
        }
    }
}

/// An event that the driver reacts to.
#[derive(Debug)]
pub enum WatchEvent {
    /// The caller dropped the response stream.
    OutputClosed,
    /// The caller sent a request.
    Request(WatchRequest),
    /// The caller dropped the request side.
    RequestsClosed,
    /// The request was passed on to the stream.
    Sent,
    /// The stream did not take the request.
    SendFailed { output_closed: bool },
    /// The stream delivered a response.
    Response(WatchResponse),
    /// The caller took the response.
    Delivered,
    /// The caller dropped the response stream before taking the response.
    DeliveryFailed,
    /// The stream ended or failed.
    StreamBroken { output_closed: bool },
    /// The wait is over.
    Waited,
    /// A new stream is open.
    Opened,
    /// No new stream could be opened.
    OpenFailed { error: Error, output_closed: bool },
}

/// What the driver does next.
#[derive(Debug)]
pub enum WatchAction {
    /// Await the next response, the next request if the request side is open, or
    /// the end of the response stream's receiver.
    Listen,
    /// Pass the request on to the stream.
    Send(WatchRequest),
    /// Hand the response to the caller.
    Deliver(WatchResponse),
    /// Wait, with jitter, before a new stream is opened.
    Wait(Duration),
    /// Open a new stream with these requests queued.
    Open(Vec<WatchRequest>),
    /// Hand the error to the caller and stop.
    GiveUp(Error),
    /// Stop.
    Stop,
}

/// `reqs` creates the watches again, each once and in some order, from where it
/// resumes.
pub open spec fn replays(watches: Map<i64, StateView>, reqs: Seq<RequestView>) -> bool {
    exists|ids: Seq<i64>| #[trigger] replays_in_order(watches, ids, reqs)
}

/// `reqs` creates the watches again in the order of `ids`.
pub open spec fn replays_in_order(
    watches: Map<i64, StateView>,
    ids: Seq<i64>,
    reqs: Seq<RequestView>,
) -> bool {
    &&& ids.no_duplicates()
    &&& ids.to_set() == watches.dom()
    &&& reqs == ids.map_values(|id: i64| RequestView::Create(watches[id].create))
}

/// What a sequence of requests asks for.
pub open spec fn request_views(reqs: Seq<WatchRequest>) -> Seq<RequestView> {
    reqs.map_values(|req: WatchRequest| req@)
}

impl DriverView {
    /// The counter is ahead of every id in use, and every watch is registered
    /// under the id it was created with.
    pub open spec fn wf(self) -> bool {
        &&& self.next_id >= 1
        &&& forall|id: i64| #[trigger]
            self.registry.watches.contains_key(id) ==> id < self.next_id
                && self.registry.watches[id].create.watch_id == id
    }

    /// There is an id for the watch that the request creates, if it creates one.
    pub open spec fn request_fits(self, req: RequestView) -> bool {
        req matches RequestView::Create(create) ==> id_fits(
            create,
            self.next_id,
            self.registry.watches.dom(),
        )
    }

    /// The ids and revisions that the event asks for are 64-bit numbers.
    pub open spec fn admits(self, event: WatchEvent) -> bool {
        match event {
            WatchEvent::Request(req) => self.request_fits(req@),
            WatchEvent::Response(resp) => revisions_fit(self.registry, resp@),
            _ => true,
        }
    }

    /// The request to pass on for a request of the caller: a create with its id
    /// assigned, anything else as it is.
    pub open spec fn outbound(self, req: RequestView) -> RequestView {
        match req {
            RequestView::Create(create) => RequestView::Create(
                CreateView {
                    watch_id: assigned_id(create, self.next_id, self.registry.watches.dom()),
                    ..create
                },
            ),
            other => other,
        }
    }

    /// The state after a request of the caller: a create is registered, a cancel
    /// drops its watch.
    pub open spec fn requested(self, req: RequestView) -> DriverView {
        match self.outbound(req) {
            RequestView::Create(create) => DriverView {
                registry: Registry {
                    watches: self.registry.watches.insert(
                        create.watch_id,
                        StateView { create, from_now: create.start_revision == 0 },
                    ),
                    ..self.registry
                },
                next_id: counter_after(
                    req->Create_0,
                    self.next_id,
                    self.registry.watches.dom(),
                ) as i64,
                ..self
            },
            RequestView::Cancel(id) => DriverView {
                registry: Registry {
                    watches: self.registry.watches.remove(id),
                    acked: self.registry.acked.remove(id),
                },
                ..self
            },
            _ => self,
        }
    }

    /// The state after a response: the registry follows it, and the stream is
    /// known to be healthy.
    pub open spec fn replied(self, r: Reply) -> DriverView {
        DriverView { registry: recorded(self.registry, r), attempt: 0, ..self }
    }

    /// There is nobody to serve, or nothing to resume.
    pub open spec fn finished(self, output_closed: bool) -> bool {
        output_closed || idle(self.registry.watches)
    }

    /// The state when one more stream is about to be opened.
    pub open spec fn reconnecting(self) -> DriverView {
        DriverView {
            attempt: if self.attempt < u32::MAX {
                (self.attempt + 1) as u32
            } else {
                self.attempt
            },
            ..self
        }
    }

    /// The driver, with a base wait of `wait` nanoseconds, takes the action and
    /// goes over to the state `next` when its stream is broken.
    pub open spec fn reconnects(
        self,
        wait: nat,
        output_closed: bool,
        next: DriverView,
        action: WatchAction,
    ) -> bool {
        if self.finished(output_closed) {
            action is Stop && next == self
        } else {
            &&& action matches WatchAction::Wait(d)
            &&& nanos(d) == reconnect_nanos(wait, self.attempt as nat)
            &&& next == self.reconnecting()
        }
    }

    /// The driver, with a base wait of `wait` nanoseconds, takes the action and
    /// goes over to the state `next` on the event.
    pub open spec fn steps(
        self,
        wait: nat,
        event: WatchEvent,
        next: DriverView,
        action: WatchAction,
    ) -> bool {
        match event {
            WatchEvent::OutputClosed | WatchEvent::DeliveryFailed => {
                action is Stop && next == self
            },
            WatchEvent::Request(req) => {
                &&& action matches WatchAction::Send(out)
                &&& out@ == self.outbound(req@)
                &&& next == self.requested(req@)
            },
            WatchEvent::RequestsClosed => {
                action is Listen && next == (DriverView { req_open: false, ..self })
            },
            WatchEvent::Sent | WatchEvent::Delivered | WatchEvent::Opened => {
                action is Listen && next == self
            },
            WatchEvent::Response(resp) => {
                &&& action == if duplicate_ack(self.registry, resp@) {
                    WatchAction::Listen
                } else {
                    WatchAction::Deliver(resp)
                }
                &&& next == self.replied(resp@)
            },
            WatchEvent::SendFailed { output_closed } => self.reconnects(
                wait,
                output_closed,
                next,
                action,
            ),
            WatchEvent::StreamBroken { output_closed } => self.reconnects(
                wait,
                output_closed,
                next,
                action,
            ),
            WatchEvent::Waited => {
                &&& action matches WatchAction::Open(reqs)
                &&& replays(self.registry.watches, request_views(reqs@))
                &&& next == self
            },
            WatchEvent::OpenFailed { error, output_closed } => {
                if decision(error, RetryPolicy::Repeatable) == Decision::Retry {
                    self.reconnects(wait, output_closed, next, action)
                } else {
                    action == WatchAction::GiveUp(error) && next == self
                }
            },
        }
    }
}

impl WatchDriver {
    /// The same stream settings.
    pub open spec fn same_settings(self, other: WatchDriver) -> bool {
        self.client == other.client && self.retry == other.retry
    }

    /// Records a user request in the registry and returns the request to forward,
    /// assigning a stable client-side id to creates.
    pub fn apply_user_request(&mut self, req: WatchRequest) -> (r: WatchRequest)
        requires
            old(self)@.request_fits(req@),
        ensures
            r@ == old(self)@.outbound(req@),
            final(self)@ == old(self)@.requested(req@),
            final(self).same_settings(*old(self)),
    {
        match req.request_union {
            Some(WatchRequestUnion::CreateRequest(create)) => {
                let mut create = create;
                assert(states(self.watches@).dom() =~= self.watches@.dom());
                let id = assign_watch_id(&mut create, &mut self.next_id, &self.watches);
                let from_now = create.start_revision == 0;
                let state = WatchState { create_req: create.clone(), from_now };
                proof {
                    lemma_states_insert(self.watches@, id, state);
                }
                self.watches.insert(id, state);
                assert(self@ =~= old(self)@.requested(req@));
                WatchRequest::from(create)
            },
            Some(WatchRequestUnion::CancelRequest(cancel)) => {
                // Drop from the registry so a reconnect does not recreate it.
                proof {
                    lemma_states_remove(self.watches@, cancel.watch_id);
                }
                self.watches.remove(&cancel.watch_id);
                self.seen_created.remove(&cancel.watch_id);
                WatchRequest::from(cancel)
            },
            other => WatchRequest { request_union: other },
        }
    }

    /// Updates the registry for `resp` and reports whether it should reach the
    /// caller. Returns `false` to suppress a duplicate `created` ack echoed after a
    /// reconnect replay.
    pub fn record(
        watches: &mut HashMap<i64, WatchState>,
        seen_created: &mut HashSet<i64>,
        resp: &WatchResponse,
    ) -> (r: bool)
        requires
            revisions_fit(registry(old(watches)@, old(seen_created)@), resp@),
        ensures
            registry(final(watches)@, final(seen_created)@) == recorded(
                registry(old(watches)@, old(seen_created)@),
                resp@,
            ),
            r == !duplicate_ack(registry(old(watches)@, old(seen_created)@), resp@),
    {
        let id = resp.watch_id();
        let header_rev: i64 = match resp.header() {
            Some(header) => header.revision(),
            None => 0,
        };
        let ghost reg = registry(old(watches)@, old(seen_created)@);
        if resp.canceled() || resp.compact_revision() != 0 {
            // The watch is over. A create the server rejects comes back as created
            // and canceled together: it is dropped too, so a reconnect does not
            // replay a doomed create forever, and the caller still sees the reason.
            watches.remove(&id);
            seen_created.remove(&id);
            proof {
                lemma_states_remove(old(watches)@, id);
            }
            return true;
        }
        if resp.created() {
            if !seen_created.insert(id) {
                // Duplicate created ack echoed after a reconnect replay.
                assert(seen_created@ =~= old(seen_created)@);
                return false;
            }
            if let Some(mut state) = watches.remove(&id) {
                let ghost before = state@;
                // A from-now watch is bound at header+1, so resuming there
                // reproduces the server's effective start without replaying the
                // event before it.
                if state.from_now {
                    state.create_req.start_revision = header_rev + 1;
                    assert(state@ =~= before.resume_at((header_rev + 1) as i64));
                }
                proof {
                    lemma_states_remove(old(watches)@, id);
                    lemma_states_insert(old(watches)@.remove(id), id, state);
                }
                watches.insert(id, state);
                assert(states(watches@) =~= recorded(reg, resp@).watches);
            } else {
                assert(states(watches@) =~= reg.watches);
            }
            return true;
        }
        if id == INVALID_WATCH_ID {
            // Broadcast progress notification: it applies to every watch, so advance
            // them all and an idle reconnect resumes near the head instead of
            // replaying history from each watch's last event.
            if !is_idle(watches) {
                advance_all(watches, header_rev + 1);
            } else {
                assert(states(watches@) =~= recorded(reg, resp@).watches);
            }
            return true;
        }
        // Hold the resume point on a non-final fragment: the rest of the revision
        // arrives in later fragments and resuming past it would skip them.
        if !resp.0.fragment && watches.contains_key(&id) {
            // Events carry the highest revision in this batch. A per-watch progress
            // notification (no events) advances to the header.
            let new_start: i64 = match last_event_revision(resp) {
                Some(revision) => revision + 1,
                None => header_rev + 1,
            };
            advance(watches, id, new_start);
        }
        true
    }

    /// Updates the watch's resume revision. Returns the response if the caller
    /// should see it.
    pub fn forward(&mut self, resp: WatchResponse) -> (r: Option<WatchResponse>)
        requires
            revisions_fit(old(self)@.registry, resp@),
        ensures
            r == (if duplicate_ack(old(self)@.registry, resp@) {
                None
            } else {
                Some(resp)
            }),
            final(self)@ == (DriverView {
                registry: recorded(old(self)@.registry, resp@),
                ..old(self)@
            }),
            final(self).same_settings(*old(self)),
    {
        if !Self::record(&mut self.watches, &mut self.seen_created, &resp) {
            return None;
        }
        Some(resp)
    }

    /// Begins to re-establish the stream: the wait before it is opened again.
    /// Returns `None` to stop the driver: the caller gave up, or no active watches
    /// remain to resubscribe.
    pub fn reconnect(&mut self, output_closed: bool) -> (r: Option<Duration>)
        ensures
            match r {
                None => old(self)@.finished(output_closed) && final(self)@ == old(self)@,
                Some(wait) => {
                    &&& !old(self)@.finished(output_closed)
                    &&& nanos(wait) == reconnect_nanos(
                        nanos(old(self).retry.backoff_wait),
                        old(self)@.attempt as nat,
                    )
                    &&& final(self)@ == old(self)@.reconnecting()
                },
            },
            final(self).same_settings(*old(self)),
    {
        if output_closed || is_idle(&self.watches) {
            return None;
        }
        // Always wait before opening: a stream that establishes then immediately
        // breaks would otherwise hot-loop with no floor. The delay grows until a
        // response arrives, which resets the counter.
        let wait = self.retry.reconnect_backoff(self.reconnect_attempt);
        if self.reconnect_attempt < u32::MAX {
            self.reconnect_attempt = self.reconnect_attempt + 1;
        }
        Some(wait)
    }

    /// The requests that create the active watches again, each from its resume
    /// revision.
    pub fn replay(&self) -> (r: Vec<WatchRequest>)
        ensures
            replays(self@.registry.watches, request_views(r@)),
    {
        let ids = watch_ids(&self.watches);
        let ghost watches = states(self.watches@);
        let ghost creates = ids@.map_values(|id: i64| RequestView::Create(watches[id].create));
        let mut reqs: Vec<WatchRequest> = Vec::new();
        assert(forall|i: int| 0 <= i < ids@.len() ==> ids@.to_set().contains(#[trigger] ids@[i]));
        let mut i: usize = 0;
        while i < ids.len()
            invariant
                i <= ids@.len(),
                forall|j: int| 0 <= j < ids@.len() ==> self.watches@.contains_key(#[trigger] ids@[j]),
                watches == states(self.watches@),
                creates == ids@.map_values(|id: i64| RequestView::Create(watches[id].create)),
                request_views(reqs@) == creates.take(i as int),
            decreases ids@.len() - i,
        {
            assert(self.watches@.contains_key(ids@[i as int]));
            if let Some(state) = self.watches.get(&ids[i]) {
                let req = WatchRequest::from(state.create_req.clone());
                assert(req@ == creates[i as int]);
                let ghost before = reqs@;
                reqs.push(req);
                assert(request_views(reqs@) =~= request_views(before).push(req@));
                assert(creates.take(i + 1) =~= creates.take(i as int).push(creates[i as int]));
            }
            i += 1;
        }
        assert(creates.take(i as int) =~= creates);
        assert(watches.dom() =~= self.watches@.dom());
        assert(replays_in_order(watches, ids@, request_views(reqs@)));
        reqs
    }

    /// The revisions that follow those in the response fit where they are needed.
    fn takes_response(&self, resp: &WatchResponse) -> (r: bool)
        ensures
            r == revisions_fit(self@.registry, resp@),
    {
        assert(states(self.watches@).dom() =~= self.watches@.dom());
        let id = resp.watch_id();
        let header_rev: i64 = match resp.header() {
            Some(header) => header.revision(),
            None => 0,
        };
        if resp.canceled() || resp.compact_revision() != 0 {
            return true;
        }
        if resp.created() {
            return match self.watches.get(&id) {
                Some(state) => !state.from_now || self.seen_created.contains(&id) || header_rev
                    < i64::MAX,
                None => true,
            };
        }
        if id == INVALID_WATCH_ID {
            return is_idle(&self.watches) || header_rev < i64::MAX;
        }
        if resp.0.fragment || !self.watches.contains_key(&id) {
            return true;
        }
        header_rev < i64::MAX && match last_event_revision(resp) {
            Some(revision) => revision < i64::MAX,
            None => true,
        }
    }

    /// [`Self::step`] may be called with the event: no id and no revision that it
    /// needs is past the largest 64-bit number.
    pub fn accepts(&self, event: &WatchEvent) -> (r: bool)
        requires
            self@.wf(),
        ensures
            r == self@.admits(*event),
    {
        match event {
            WatchEvent::Request(req) => match &req.request_union {
                Some(WatchRequestUnion::CreateRequest(create)) => {
                    assert(!self@.registry.watches.contains_key(self.next_id));
                    if create.watch_id == 0 {
                        self.next_id < i64::MAX
                    } else {
                        create.watch_id < i64::MAX
                    }
                },
                _ => true,
            },
            WatchEvent::Response(resp) => self.takes_response(resp),
            _ => true,
        }
    }

    /// What follows when the stream broke.
    fn after_break(&mut self, output_closed: bool) -> (r: WatchAction)
        ensures
            old(self)@.reconnects(
                nanos(old(self).retry.backoff_wait),
                output_closed,
                final(self)@,
                r,
            ),
            final(self).same_settings(*old(self)),
    {
        match self.reconnect(output_closed) {
            Some(wait) => WatchAction::Wait(wait),
            None => WatchAction::Stop,
        }
    }

    /// One step of the driver: the event is taken in, and the action says what to
    /// do next. A run begins with [`WatchAction::Listen`] on an open stream.
    pub fn step(&mut self, event: WatchEvent) -> (r: WatchAction)
        requires
            old(self)@.admits(event),
        ensures
            old(self)@.steps(nanos(old(self).retry.backoff_wait), event, final(self)@, r),
            final(self).same_settings(*old(self)),
    {
        match event {
            WatchEvent::OutputClosed | WatchEvent::DeliveryFailed => WatchAction::Stop,
            WatchEvent::Request(req) => WatchAction::Send(self.apply_user_request(req)),
            // Stop accepting requests but keep delivering responses.
            WatchEvent::RequestsClosed => {
                self.req_open = false;
                WatchAction::Listen
            },
            WatchEvent::Sent | WatchEvent::Delivered | WatchEvent::Opened => WatchAction::Listen,
            WatchEvent::Response(resp) => {
                // A delivered response proves the stream is healthy.
                self.reconnect_attempt = 0;
                match self.forward(resp) {
                    Some(resp) => WatchAction::Deliver(resp),
                    None => WatchAction::Listen,
                }
            },
            WatchEvent::SendFailed { output_closed } => self.after_break(output_closed),
            WatchEvent::StreamBroken { output_closed } => self.after_break(output_closed),
            WatchEvent::Waited => WatchAction::Open(self.replay()),
            WatchEvent::OpenFailed { error, output_closed } => {
                // A permanent error (e.g. an expired auth token the driver cannot
                // refresh) would otherwise retry forever as a silent hang.
                match classify(&error, RetryPolicy::Repeatable) {
                    Decision::Retry => self.after_break(output_closed),
                    _ => WatchAction::GiveUp(error),
                }
            },
        }
    }
}

} // verus!
