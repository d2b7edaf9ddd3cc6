//! The watch service: requests, options, responses and events.

use crate::failover::{RetryConfig, RetryPolicy};
use crate::retry::{new_run, RetryRun};
use crate::rpc::key_range::{wire_range, Extent, KeyRange};
use crate::rpc::watch_driver::{assign_watch_id, StateView, WatchDriver, WatchState};
use crate::rpc::{KeyValue, ResponseHeader};
use std::collections::{HashMap, HashSet};
use vstd::prelude::*;

verus! {

broadcast use vstd::std_specs::hash::group_hash_axioms;

/// A request to create a watcher.
#[derive(Debug, Default)]
pub struct WatchCreateRequest {
    pub key: Vec<u8>,
    pub range_end: Vec<u8>,
    pub start_revision: i64,
    pub progress_notify: bool,
    pub filters: Vec<i32>,
    pub prev_kv: bool,
    pub watch_id: i64,
    pub fragment: bool,
}

/// The contents of a request to create a watcher.
#[verifier::ext_equal]
pub struct CreateView {
    pub key: Seq<u8>,
    pub range_end: Seq<u8>,
    pub start_revision: i64,
    pub progress_notify: bool,
    pub filters: Seq<i32>,
    pub prev_kv: bool,
    pub watch_id: i64,
    pub fragment: bool,
}

impl View for WatchCreateRequest {
    type V = CreateView;

    open spec fn view(&self) -> CreateView {
        CreateView {
            key: self.key@,
            range_end: self.range_end@,
            start_revision: self.start_revision,
            progress_notify: self.progress_notify,
            filters: self.filters@,
            prev_kv: self.prev_kv,
            watch_id: self.watch_id,
            fragment: self.fragment,
        }
    }
}

impl Clone for WatchCreateRequest {
    fn clone(&self) -> (r: Self)
        ensures
            r@ == self@,
    {
        let r = WatchCreateRequest {
            key: self.key.clone(),
            range_end: self.range_end.clone(),
            start_revision: self.start_revision,
            progress_notify: self.progress_notify,
            filters: self.filters.clone(),
            prev_kv: self.prev_kv,
            watch_id: self.watch_id,
            fragment: self.fragment,
        };
        assert(r@ =~= self@);
        r
    }
}

/// A request to cancel a watcher.
#[derive(Clone, Copy, Debug, Default, PartialEq, Eq, Structural)]
pub struct WatchCancelRequest {
    pub watch_id: i64,
}

/// A request for the progress of the watch stream.
#[derive(Clone, Copy, Debug, Default, PartialEq, Eq, Structural)]
pub struct WatchProgressRequest {}

/// The kinds of request on a watch stream.
#[derive(Clone, Debug)]
pub enum WatchRequestUnion {
    CreateRequest(WatchCreateRequest),
    CancelRequest(WatchCancelRequest),
    ProgressRequest(WatchProgressRequest),
}

/// A request on a watch stream.
#[derive(Clone, Debug)]
pub struct WatchRequest {
    pub request_union: Option<WatchRequestUnion>,
}

/// What a request on a watch stream asks for.
#[verifier::ext_equal]
pub enum RequestView {
    Create(CreateView),
    Cancel(i64),
    Progress,
    Nothing,
}

impl View for WatchRequest {
    type V = RequestView;

    open spec fn view(&self) -> RequestView {
        match self.request_union {
            Some(WatchRequestUnion::CreateRequest(create)) => RequestView::Create(create@),
            Some(WatchRequestUnion::CancelRequest(cancel)) => RequestView::Cancel(cancel.watch_id),
            Some(WatchRequestUnion::ProgressRequest(_)) => RequestView::Progress,
            None => RequestView::Nothing,
        }
    }
}

impl From<WatchCreateRequest> for WatchRequest {
    fn from(create: WatchCreateRequest) -> (r: Self) {
        WatchRequest { request_union: Some(WatchRequestUnion::CreateRequest(create)) }
    }
}

impl vstd::std_specs::convert::FromSpecImpl<WatchCreateRequest> for WatchRequest {
    open spec fn obeys_from_spec() -> bool {
        true
    }

    open spec fn from_spec(create: WatchCreateRequest) -> Self {
        WatchRequest { request_union: Some(WatchRequestUnion::CreateRequest(create)) }
    }
}

impl From<WatchCancelRequest> for WatchRequest {
    fn from(req: WatchCancelRequest) -> (r: Self) {
        WatchRequest { request_union: Some(WatchRequestUnion::CancelRequest(req)) }
    }
}

impl vstd::std_specs::convert::FromSpecImpl<WatchCancelRequest> for WatchRequest {
    open spec fn obeys_from_spec() -> bool {
        true
    }

    open spec fn from_spec(req: WatchCancelRequest) -> Self {
        WatchRequest { request_union: Some(WatchRequestUnion::CancelRequest(req)) }
    }
}

impl From<WatchProgressRequest> for WatchRequest {
    fn from(req: WatchProgressRequest) -> (r: Self) {
        WatchRequest { request_union: Some(WatchRequestUnion::ProgressRequest(req)) }
    }
}

impl vstd::std_specs::convert::FromSpecImpl<WatchProgressRequest> for WatchRequest {
    open spec fn obeys_from_spec() -> bool {
        true
    }

    open spec fn from_spec(req: WatchProgressRequest) -> Self {
        WatchRequest { request_union: Some(WatchRequestUnion::ProgressRequest(req)) }
    }
}

/// Watch filter type.
#[derive(Clone, Copy, Debug, PartialEq, Eq, Hash, PartialOrd, Ord, Structural)]
pub enum WatchFilterType {
    /// Filter out put event.
    NoPut,
    /// Filter out delete event.
    NoDelete,
}

/// The number that stands for a filter on the wire.
pub open spec fn filter_code(filter: WatchFilterType) -> i32 {
    match filter {
        WatchFilterType::NoPut => 0,
        WatchFilterType::NoDelete => 1,
    }
}

impl WatchFilterType {
    /// The number that stands for the filter on the wire.
    pub fn code(self) -> (r: i32)
        ensures
            r == filter_code(self),
    {
        match self {
            WatchFilterType::NoPut => 0,
            WatchFilterType::NoDelete => 1,
        }
    }
}

/// Options for `Watch` operation.
#[derive(Debug)]
pub struct WatchOptions {
    pub req: WatchCreateRequest,
    pub key_range: KeyRange,
}

impl View for WatchOptions {
    type V = CreateView;

    /// The request that the options stand for.
    open spec fn view(&self) -> CreateView {
        let (key, range_end) = self.key_range.wire();
        CreateView { key, range_end, ..self.req@ }
    }
}

impl Default for WatchOptions {
    fn default() -> (r: Self)
        ensures
            r.is_blank(),
    {
        WatchOptions::new()
    }
}

impl Clone for WatchOptions {
    fn clone(&self) -> (r: Self)
        ensures
            r.req@ == self.req@,
            r.key_range@ == self.key_range@,
    {
        WatchOptions { req: self.req.clone(), key_range: self.key_range.clone() }
    }
}

impl WatchOptions {
    /// Nothing is set.
    pub open spec fn is_blank(self) -> bool {
        &&& self.req@ == (CreateView {
            key: Seq::empty(),
            range_end: Seq::empty(),
            start_revision: 0,
            progress_notify: false,
            filters: Seq::empty(),
            prev_kv: false,
            watch_id: 0,
            fragment: false,
        })
        &&& self.key_range@ == (Seq::<u8>::empty(), Seq::<u8>::empty(), Extent::Range)
    }

    /// Sets key.
    pub fn with_key(self, key: Vec<u8>) -> (r: Self)
        ensures
            r == (WatchOptions { key_range: KeyRange { key, ..self.key_range }, ..self }),
    {
        let mut options = self;
        options.key_range.with_key(key);
        options
    }

    /// Creates a new `WatchOptions`.
    pub fn new() -> (r: Self)
        ensures
            r.is_blank(),
    {
        WatchOptions {
            req: WatchCreateRequest {
                key: Vec::new(),
                range_end: Vec::new(),
                start_revision: 0,
                progress_notify: false,
                filters: Vec::new(),
                prev_kv: false,
                watch_id: 0,
                fragment: false,
            },
            key_range: KeyRange::new(),
        }
    }

    /// Sets the end of the range `[key, end)` to watch.
    ///
    /// If `end` is not given, only the key argument is watched.
    ///
    /// If `end` is equal to `\0`, all keys greater than or equal to the key argument are watched.
    pub fn with_range(self, end: Vec<u8>) -> (r: Self)
        ensures
            r == (WatchOptions {
                key_range: KeyRange { range_end: end, extent: Extent::Range, ..self.key_range },
                ..self
            }),
    {
        let mut options = self;
        options.key_range.with_range(end);
        options
    }

    /// Watches all keys >= key.
    pub fn with_from_key(self) -> (r: Self)
        ensures
            r == (WatchOptions {
                key_range: KeyRange { extent: Extent::FromKey, ..self.key_range },
                ..self
            }),
    {
        let mut options = self;
        options.key_range.with_from_key();
        options
    }

    /// Watches all keys prefixed with key.
    pub fn with_prefix(self) -> (r: Self)
        ensures
            r == (WatchOptions {
                key_range: KeyRange { extent: Extent::Prefix, ..self.key_range },
                ..self
            }),
    {
        let mut options = self;
        options.key_range.with_prefix();
        options
    }

    /// Watches all keys.
    pub fn with_all_keys(self) -> (r: Self)
        ensures
            r == (WatchOptions {
                key_range: KeyRange { extent: Extent::AllKeys, ..self.key_range },
                ..self
            }),
    {
        let mut options = self;
        options.key_range.with_all_keys();
        options
    }

    /// Sets the revision to watch from (inclusive). No `start_revision` is "now".
    pub fn with_start_revision(self, revision: i64) -> (r: Self)
        ensures
            r == (WatchOptions {
                req: WatchCreateRequest { start_revision: revision, ..self.req },
                ..self
            }),
    {
        let mut options = self;
        options.req.start_revision = revision;
        options
    }

    /// `progress_notify` is set so that the etcd server will periodically send a `WatchResponse` with
    /// no events to the new watcher if there are no recent events. It is useful when clients
    /// wish to recover a disconnected watcher starting from a recent known revision.
    /// The etcd server may decide how often it will send notifications based on current load.
    pub fn with_progress_notify(self) -> (r: Self)
        ensures
            r == (WatchOptions {
                req: WatchCreateRequest { progress_notify: true, ..self.req },
                ..self
            }),
    {
        let mut options = self;
        options.req.progress_notify = true;
        options
    }

    /// Filter the events at server side before it sends back to the watcher.
    pub fn with_filters(self, filters: Vec<WatchFilterType>) -> (r: Self)
        ensures
            r.req.filters@ == filters@.map_values(|f: WatchFilterType| filter_code(f)),
            r == (WatchOptions {
                req: WatchCreateRequest { filters: r.req.filters, ..self.req },
                ..self
            }),
    {
        let mut codes: Vec<i32> = Vec::new();
        let mut i: usize = 0;
        while i < filters.len()
            invariant
                i <= filters@.len(),
                codes@ == filters@.take(i as int).map_values(|f: WatchFilterType| filter_code(f)),
            decreases filters@.len() - i,
        {
            codes.push(filters[i].code());
            i += 1;
            assert(codes@ =~= filters@.take(i as int).map_values(
                |f: WatchFilterType| filter_code(f),
            ));
        }
        assert(filters@.take(i as int) =~= filters@);
        let mut options = self;
        options.req.filters = codes;
        options
    }

    /// If `prev_kv` is set, created watcher gets the previous KV before the event happens.
    /// If the previous KV is already compacted, nothing will be returned.
    pub fn with_prev_key(self) -> (r: Self)
        ensures
            r == (WatchOptions { req: WatchCreateRequest { prev_kv: true, ..self.req }, ..self }),
    {
        let mut options = self;
        options.req.prev_kv = true;
        options
    }

    /// If `watch_id` is provided and non-zero, it will be assigned to this watcher.
    /// Since creating a watcher in etcd is not a synchronous operation,
    /// this can be used ensure that ordering is correct when creating multiple
    /// watchers on the same stream. Creating a watcher with an ID already in
    /// use on the stream will cause an error to be returned.
    pub fn with_watch_id(self, watch_id: i64) -> (r: Self)
        ensures
            r == (WatchOptions { req: WatchCreateRequest { watch_id, ..self.req }, ..self }),
    {
        let mut options = self;
        options.req.watch_id = watch_id;
        options
    }

    /// Enables splitting large revisions into multiple watch responses.
    pub fn with_fragment(self) -> (r: Self)
        ensures
            r == (WatchOptions { req: WatchCreateRequest { fragment: true, ..self.req }, ..self }),
    {
        let mut options = self;
        options.req.fragment = true;
        options
    }

    /// The request that the options stand for.
    pub fn into_create(self) -> (r: WatchCreateRequest)
        ensures
            r@ == self@,
    {
        let (key, range_end) = self.key_range.build();
        let mut req = self.req;
        req.key = key;
        req.range_end = range_end;
        req
    }
}

impl From<WatchOptions> for WatchCreateRequest {
    fn from(options: WatchOptions) -> (r: Self)
        ensures
            r@ == options@,
    {
        options.into_create()
    }
}

// A request holds vectors, of which only the contents are determined, so what the
// conversion returns is stated by the `ensures` of `from` alone.
impl vstd::std_specs::convert::FromSpecImpl<WatchOptions> for WatchCreateRequest {
    open spec fn obeys_from_spec() -> bool {
        false
    }

    open spec fn from_spec(options: WatchOptions) -> Self {
        options.req
    }
}

impl From<WatchOptions> for WatchRequest {
    fn from(options: WatchOptions) -> (r: Self)
        ensures
            r@ == RequestView::Create(options@),
    {
        WatchRequest { request_union: Some(WatchRequestUnion::CreateRequest(options.into_create())) }
    }
}

impl vstd::std_specs::convert::FromSpecImpl<WatchOptions> for WatchRequest {
    open spec fn obeys_from_spec() -> bool {
        false
    }

    open spec fn from_spec(options: WatchOptions) -> Self {
        WatchRequest { request_union: None }
    }
}

/// The request for a watch on `key`, with the options given or with none set.
pub open spec fn create_for(key: Seq<u8>, options: Option<WatchOptions>) -> CreateView {
    match options {
        Some(o) => {
            let (from, to) = wire_range(key, o.key_range.range_end@, o.key_range.extent);
            CreateView { key: from, range_end: to, ..o.req@ }
        },
        None => CreateView {
            key,
            range_end: Seq::empty(),
            start_revision: 0,
            progress_notify: false,
            filters: Seq::empty(),
            prev_kv: false,
            watch_id: 0,
            fragment: false,
        },
    }
}

/// The request that creates a watcher for `key`.
pub fn create_request(key: Vec<u8>, options: Option<WatchOptions>) -> (r: WatchCreateRequest)
    ensures
        r@ == create_for(key@, options),
{
    let options = match options {
        Some(o) => o,
        None => WatchOptions::new(),
    };
    options.with_key(key).into_create()
}

impl WatchRequest {
    /// Asks for a new watcher on `key`.
    pub fn watch(key: Vec<u8>, options: Option<WatchOptions>) -> (r: Self)
        ensures
            r@ == RequestView::Create(create_for(key@, options)),
    {
        WatchRequest::from(create_request(key, options))
    }

    /// Asks to cancel the watcher with the id `watch_id`.
    pub fn cancel(watch_id: i64) -> (r: Self)
        ensures
            r@ == RequestView::Cancel(watch_id),
    {
        WatchRequest::from(WatchCancelRequest { watch_id })
    }

    /// Asks for the progress of the watch stream.
    pub fn request_progress() -> (r: Self)
        ensures
            r@ == RequestView::Progress,
    {
        WatchRequest::from(WatchProgressRequest {  })
    }
}

/// A watch event as it comes over the wire.
#[derive(Clone, Debug, Default)]
pub struct PbEvent {
    pub kind: i32,
    pub kv: Option<KeyValue>,
    pub prev_kv: Option<KeyValue>,
}

/// Watching event.
#[derive(Clone, Debug, Default)]
pub struct Event(pub PbEvent);

/// A watch response as it comes over the wire.
#[derive(Clone, Debug, Default)]
pub struct PbWatchResponse {
    pub header: Option<ResponseHeader>,
    pub watch_id: i64,
    pub created: bool,
    pub canceled: bool,
    pub compact_revision: i64,
    pub cancel_reason: String,
    pub fragment: bool,
    pub events: Vec<Event>,
}

/// Response for `Watch` operation.
#[derive(Clone, Debug)]
pub struct WatchResponse(pub PbWatchResponse);

/// What the registry of watches reads of a response.
pub struct Reply {
    pub watch_id: i64,
    /// The revision in the header, 0 without a header.
    pub revision: i64,
    pub created: bool,
    pub canceled: bool,
    pub compact_revision: i64,
    pub fragment: bool,
    /// The revision of the last event in the batch.
    pub last_event: Option<i64>,
}

impl View for WatchResponse {
    type V = Reply;

    open spec fn view(&self) -> Reply {
        Reply {
            watch_id: self.0.watch_id,
            revision: match self.0.header {
                Some(header) => header.revision,
                None => 0,
            },
            created: self.0.created,
            canceled: self.0.canceled,
            compact_revision: self.0.compact_revision,
            fragment: self.0.fragment,
            last_event: if self.0.events@.len() == 0 {
                None
            } else {
                match self.0.events@.last().0.kv {
                    Some(kv) => Some(kv.mod_revision),
                    None => None,
                }
            },
        }
    }
}

impl WatchResponse {
    /// Creates a new `WatchResponse`.
    pub fn new(resp: PbWatchResponse) -> (r: Self)
        ensures
            r.0 == resp,
    {
        WatchResponse(resp)
    }

    /// Watch response header.
    pub fn header(&self) -> (r: Option<&ResponseHeader>)
        ensures
            r == (match self.0.header {
                Some(header) => Some(&header),
                None => None,
            }),
    {
        self.0.header.as_ref()
    }

    /// Takes the header out of the response, leaving a [`None`] in its place.
    pub fn take_header(&mut self) -> (r: Option<ResponseHeader>)
        ensures
            r == old(self).0.header,
            final(self).0 == (PbWatchResponse { header: None, ..old(self).0 }),
    {
        self.0.header.take()
    }

    /// The ID of the watcher that corresponds to the response.
    pub fn watch_id(&self) -> (r: i64)
        ensures
            r == self.0.watch_id,
    {
        self.0.watch_id
    }

    /// created is set to true if the response is for a create watch request.
    /// The client should record the watch_id and expect to receive events for
    /// the created watcher from the same stream.
    /// All events sent to the created watcher will attach with the same watch_id.
    pub fn created(&self) -> (r: bool)
        ensures
            r == self.0.created,
    {
        self.0.created
    }

    /// `canceled` is set to true if the response is for a cancel watch request.
    /// No further events will be sent to the canceled watcher.
    pub fn canceled(&self) -> (r: bool)
        ensures
            r == self.0.canceled,
    {
        self.0.canceled
    }

    /// `compact_revision` is set to the minimum index if a watcher tries to watch
    /// at a compacted index.
    ///
    /// This happens when creating a watcher at a compacted revision or the watcher cannot
    /// catch up with the progress of the key-value store.
    ///
    /// The client should treat the watcher as canceled and should not try to create any
    /// watcher with the same start_revision again.
    pub fn compact_revision(&self) -> (r: i64)
        ensures
            r == self.0.compact_revision,
    {
        self.0.compact_revision
    }

    /// Indicates the reason for canceling the watcher.
    pub fn cancel_reason(&self) -> (r: &str)
        ensures
            r@ == self.0.cancel_reason@,
    {
        self.0.cancel_reason.as_str()
    }

    /// Events happened on the watched keys.
    pub fn events(&self) -> (r: &[Event])
        ensures
            r@ == self.0.events@,
    {
        self.0.events.as_slice()
    }
}

/// The modification revision of the last event in the response.
pub(crate) fn last_event_revision(resp: &WatchResponse) -> (r: Option<i64>)
    ensures
        r == resp@.last_event,
{
    let events = resp.events();
    if events.len() == 0 {
        return None;
    }
    match events[events.len() - 1].kv() {
        Some(kv) => Some(kv.mod_revision()),
        None => None,
    }
}

/// The kind of a watch event.
#[derive(Clone, Copy, Debug, PartialEq, Eq, Structural)]
pub enum EventType {
    Put,
    Delete,
}

impl Event {
    /// The kind of event. If type is a `Put`, it indicates
    /// new data has been stored to the key. If type is a `Delete`,
    /// it indicates the key was deleted.
    pub fn event_type(&self) -> (r: EventType)
        requires
            self.0.kind == 0 || self.0.kind == 1,
        ensures
            r == (if self.0.kind == 0 {
                EventType::Put
            } else {
                EventType::Delete
            }),
    {
        match self.0.kind {
            0 => EventType::Put,
            _ => EventType::Delete,
        }
    }

    /// The KeyValue for the event.
    /// A `Put` event contains current kv pair.
    /// A `Put` event with `kv.version()==1` indicates the creation of a key.
    /// A `Delete` event contains the deleted key with
    /// its modification revision set to the revision of deletion.
    pub fn kv(&self) -> (r: Option<&KeyValue>)
        ensures
            r == (match self.0.kv {
                Some(kv) => Some(&kv),
                None => None,
            }),
    {
        self.0.kv.as_ref()
    }

    /// The key-value pair before the event happens.
    pub fn prev_kv(&self) -> (r: Option<&KeyValue>)
        ensures
            r == (match self.0.prev_kv {
                Some(kv) => Some(&kv),
                None => None,
            }),
    {
        self.0.prev_kv.as_ref()
    }
}

/// Client for watch operations.
#[derive(Debug)]
pub struct WatchClient {
    /// The largest message that is decoded; `None` for the transport's default.
    pub max_decoding_message_size: Option<usize>,
    pub retry: RetryConfig,
}

impl Clone for WatchClient {
    fn clone(&self) -> (r: Self)
        ensures
            r == *self,
    {
        WatchClient {
            max_decoding_message_size: self.max_decoding_message_size,
            retry: self.retry.clone(),
        }
    }
}

/// How a watch begins.
#[derive(Debug)]
pub struct WatchStart {
    /// The request to queue before the stream is opened.
    pub initial: WatchRequest,
    /// The driver that keeps the stream alive; `None` for a stream that ends when
    /// its connection does.
    pub driver: Option<WatchDriver>,
}

impl WatchClient {
    /// Creates a watch client.
    pub fn new() -> (r: Self)
        ensures
            r.max_decoding_message_size is None,
            r.retry.is_disabled(),
    {
        WatchClient { max_decoding_message_size: None, retry: RetryConfig::disabled() }
    }

    /// Installs the failover config (called once at client construction).
    pub fn set_retry(&mut self, retry: RetryConfig)
        ensures
            *final(self) == (WatchClient { retry, ..*old(self) }),
    {
        self.retry = retry;
    }

    /// Limits the maximum size of a decoded message.
    ///
    /// Default: `4MB`
    pub fn max_decoding_message_size(self, limit: usize) -> (r: Self)
        ensures
            r == (WatchClient { max_decoding_message_size: Some(limit), ..self }),
    {
        let mut client = self;
        client.max_decoding_message_size = Some(limit);
        client
    }

    /// Begins to watch for events on `key`.
    ///
    /// With reconnect, the stream is driven: it reconnects on a healthy endpoint
    /// and resumes each watch from the revision after the last one delivered.
    pub fn watch(&self, key: Vec<u8>, options: Option<WatchOptions>) -> (r: WatchStart)
        requires
            self.retry.watch_reconnect ==> create_for(key@, options).watch_id < i64::MAX,
        ensures
            self.retry.watch_reconnect ==> {
                let create = create_for(key@, options);
                let id: i64 = if create.watch_id == 0 {
                    1
                } else {
                    create.watch_id
                };
                let assigned = CreateView { watch_id: id, ..create };
                &&& r.initial@ == RequestView::Create(assigned)
                &&& r.driver matches Some(driver)
                &&& driver.client == *self
                &&& driver.retry == self.retry
                &&& driver@.wf()
                &&& driver@.registry.watches == map![
                    id => StateView { create: assigned, from_now: create.start_revision == 0 }
                ]
                &&& driver@.registry.acked == Set::<i64>::empty()
                &&& driver@.attempt == 0
                &&& driver@.req_open
                &&& driver@.next_id == if id < 1 {
                    1
                } else {
                    id + 1
                }
            },
            !self.retry.watch_reconnect ==> {
                &&& r.initial@ == RequestView::Create(create_for(key@, options))
                &&& r.driver is None
            },
    {
        let mut create = create_request(key, options);
        if self.retry.watch_reconnect {
            // Assign a stable client-side watch id (honoring a caller-set id) so
            // the caller's observed id does not change across reconnects.
            let mut next_id: i64 = 1;
            let mut watches: HashMap<i64, WatchState> = HashMap::new();
            let id = assign_watch_id(&mut create, &mut next_id, &watches);
            let from_now = create.start_revision == 0;
            let state = WatchState { create_req: create.clone(), from_now };
            watches.insert(id, state);
            let driver = WatchDriver {
                client: self.clone(),
                retry: self.retry.clone(),
                watches,
                seen_created: HashSet::new(),
                next_id,
                reconnect_attempt: 0,
                req_open: true,
            };
            assert(driver@.registry.watches =~= map![id => state@]);
            return WatchStart { initial: WatchRequest::from(create), driver: Some(driver) };
        }
        WatchStart { initial: WatchRequest::from(create), driver: None }
    }

    /// The attempts at opening the first stream of a watch: with reconnect they fail
    /// over within the retry budget, without it there is only one.
    pub fn first_open(&self) -> (r: RetryRun)
        ensures
            r.wf(),
            r == new_run(
                RetryPolicy::Repeatable,
                false,
                if self.retry.watch_reconnect {
                    self.retry.max_attempts
                } else {
                    1
                },
            ),
    {
        if self.retry.watch_reconnect {
            self.open_retrying()
        } else {
            RetryRun::start(RetryPolicy::Repeatable, false, 1)
        }
    }

    /// The attempts at opening a stream that is to be kept alive: like an idempotent RPC, it fails
    /// over to a healthy endpoint on a transient error, within the retry budget.
    /// This client cannot refresh an auth token, so an auth error ends it.
    pub fn open_retrying(&self) -> (r: RetryRun)
        ensures
            r.wf(),
            r == new_run(RetryPolicy::Repeatable, false, self.retry.max_attempts),
    {
        RetryRun::start(RetryPolicy::Repeatable, false, self.retry.max_attempts)
    }
}

} // verus!
