//! What watch requests ask for, what is read from watch responses, and how a watch
//! begins.

use crate::failover::{RetryConfig, RetryPolicy};
use crate::laws::key_range::{addresses, extends};
use crate::laws::watch_stream::{counts_past, orderly, same_create, same_filter};
use crate::retry::RetryRun;
use crate::rpc::key_range::{Extent, KeyRange};
use crate::rpc::watch::{
    create_request, Event, EventType, PbWatchResponse, WatchCancelRequest, WatchClient,
    WatchCreateRequest, WatchFilterType, WatchOptions, WatchProgressRequest, WatchRequest,
    WatchRequestUnion, WatchResponse, WatchStart,
};
use crate::rpc::{KeyValue, ResponseHeader};
use crate::time::nanos;
use std::sync::atomic::AtomicUsize;
use vstd::prelude::*;

verus! {

/// The request is one for a watch from now on, of no key in particular, with nothing
/// asked for.
pub open spec fn asks_nothing(req: WatchCreateRequest) -> bool {
    &&& req.key@.len() == 0
    &&& req.range_end@.len() == 0
    &&& req.start_revision == 0
    &&& !req.progress_notify
    &&& req.filters@.len() == 0
    &&& !req.prev_kv
    &&& req.watch_id == 0
    &&& !req.fragment
}

/// New options have nothing set.
pub proof fn law_new_watch_options(r: WatchOptions)
    requires
        call_ensures(WatchOptions::new, (), r) || call_ensures(
            <WatchOptions as Default>::default,
            (),
            r,
        ),
    ensures
        asks_nothing(r.req),
        r.key_range.key@.len() == 0,
        r.key_range.range_end@.len() == 0,
        r.key_range.extent == Extent::Range,
{
}

/// Cloned options ask for the same.
pub proof fn law_watch_options_clone(o: WatchOptions, r: WatchOptions)
    requires
        call_ensures(<WatchOptions as Clone>::clone, (&o,), r),
    ensures
        same_create(r.req, o.req),
        r.key_range.key@ == o.key_range.key@,
        r.key_range.range_end@ == o.key_range.range_end@,
        r.key_range.extent == o.key_range.extent,
{
    assert(r.key_range@ == o.key_range@);
}

/// A cloned request asks for the same.
pub proof fn law_create_clone(req: WatchCreateRequest, r: WatchCreateRequest)
    requires
        call_ensures(<WatchCreateRequest as Clone>::clone, (&req,), r),
    ensures
        same_create(r, req),
{
}

/// The key that is set is what is watched from; nothing else changes.
pub proof fn law_watch_key(o: WatchOptions, key: Vec<u8>, r: WatchOptions)
    requires
        call_ensures(WatchOptions::with_key, (o, key), r),
    ensures
        r.key_range.key == key,
        r.key_range.range_end == o.key_range.range_end,
        r.key_range.extent == o.key_range.extent,
        r.req == o.req,
{
}

/// The end that is set is what is watched up to; nothing else changes.
pub proof fn law_watch_range(o: WatchOptions, end: Vec<u8>, r: WatchOptions)
    requires
        call_ensures(WatchOptions::with_range, (o, end), r),
    ensures
        r.key_range.range_end == end,
        r.key_range.extent == Extent::Range,
        r.key_range.key == o.key_range.key,
        r.req == o.req,
{
}

/// All keys from the key on are watched; nothing else changes.
pub proof fn law_watch_from_key(o: WatchOptions, r: WatchOptions)
    requires
        call_ensures(WatchOptions::with_from_key, (o,), r),
    ensures
        r.key_range.extent == Extent::FromKey,
        r.key_range.key == o.key_range.key,
        r.key_range.range_end == o.key_range.range_end,
        r.req == o.req,
{
}

/// All keys that begin with the key are watched; nothing else changes.
pub proof fn law_watch_prefix(o: WatchOptions, r: WatchOptions)
    requires
        call_ensures(WatchOptions::with_prefix, (o,), r),
    ensures
        r.key_range.extent == Extent::Prefix,
        r.key_range.key == o.key_range.key,
        r.key_range.range_end == o.key_range.range_end,
        r.req == o.req,
{
}

/// All keys are watched; nothing else changes.
pub proof fn law_watch_all_keys(o: WatchOptions, r: WatchOptions)
    requires
        call_ensures(WatchOptions::with_all_keys, (o,), r),
    ensures
        r.key_range.extent == Extent::AllKeys,
        r.key_range.key == o.key_range.key,
        r.key_range.range_end == o.key_range.range_end,
        r.req == o.req,
{
}

/// The start revision that is set is the one to watch from; nothing else changes.
pub proof fn law_watch_start_revision(o: WatchOptions, revision: i64, r: WatchOptions)
    requires
        call_ensures(WatchOptions::with_start_revision, (o, revision), r),
    ensures
        r.req.start_revision == revision,
        r.req == (WatchCreateRequest { start_revision: r.req.start_revision, ..o.req }),
        r.key_range == o.key_range,
{
}

/// Progress notifications are asked for; nothing else changes.
pub proof fn law_watch_progress_notify(o: WatchOptions, r: WatchOptions)
    requires
        call_ensures(WatchOptions::with_progress_notify, (o,), r),
    ensures
        r.req.progress_notify,
        r.req == (WatchCreateRequest { progress_notify: r.req.progress_notify, ..o.req }),
        r.key_range == o.key_range,
{
}

/// Previous values are asked for; nothing else changes.
pub proof fn law_watch_prev_key(o: WatchOptions, r: WatchOptions)
    requires
        call_ensures(WatchOptions::with_prev_key, (o,), r),
    ensures
        r.req.prev_kv,
        r.req == (WatchCreateRequest { prev_kv: r.req.prev_kv, ..o.req }),
        r.key_range == o.key_range,
{
}

/// The id that is set is asked for; nothing else changes.
pub proof fn law_watch_id(o: WatchOptions, id: i64, r: WatchOptions)
    requires
        call_ensures(WatchOptions::with_watch_id, (o, id), r),
    ensures
        r.req.watch_id == id,
        r.req == (WatchCreateRequest { watch_id: r.req.watch_id, ..o.req }),
        r.key_range == o.key_range,
{
}

/// Fragments are allowed; nothing else changes.
pub proof fn law_watch_fragment(o: WatchOptions, r: WatchOptions)
    requires
        call_ensures(WatchOptions::with_fragment, (o,), r),
    ensures
        r.req.fragment,
        r.req == (WatchCreateRequest { fragment: r.req.fragment, ..o.req }),
        r.key_range == o.key_range,
{
}

/// The server knows the filters by number: 0 keeps puts away, and 1 deletes.
pub proof fn law_filter_codes(filter: WatchFilterType, r: i32)
    requires
        call_ensures(WatchFilterType::code, (filter,), r),
    ensures
        filter == WatchFilterType::NoPut ==> r == 0,
        filter == WatchFilterType::NoDelete ==> r == 1,
{
}

/// Each filter that is set is sent by its number, in order; nothing else changes.
pub proof fn law_watch_filters(o: WatchOptions, filters: Vec<WatchFilterType>, r: WatchOptions)
    requires
        call_ensures(WatchOptions::with_filters, (o, filters), r),
    ensures
        r.req.filters@.len() == filters@.len(),
        forall|i: int|
            0 <= i < filters@.len() && filters@[i] == WatchFilterType::NoPut
                ==> #[trigger] r.req.filters@[i] == 0,
        forall|i: int|
            0 <= i < filters@.len() && filters@[i] == WatchFilterType::NoDelete
                ==> #[trigger] r.req.filters@[i] == 1,
        r.req == (WatchCreateRequest { filters: r.req.filters, ..o.req }),
        r.key_range == o.key_range,
{
}

/// The request has all that the options ask for, and the range that they name.
pub open spec fn asks_for(
    req: WatchCreateRequest,
    o: WatchOptions,
    range: (Vec<u8>, Vec<u8>),
) -> bool {
    &&& req.key@ == range.0@
    &&& req.range_end@ == range.1@
    &&& req.start_revision == o.req.start_revision
    &&& req.progress_notify == o.req.progress_notify
    &&& req.filters@ == o.req.filters@
    &&& req.prev_kv == o.req.prev_kv
    &&& req.watch_id == o.req.watch_id
    &&& req.fragment == o.req.fragment
}

/// Options become a request for their range with all that they ask for, whichever way
/// they are converted.
pub proof fn law_options_become_a_request(
    o: WatchOptions,
    range: (Vec<u8>, Vec<u8>),
    create: WatchCreateRequest,
    converted: WatchCreateRequest,
    req: WatchRequest,
)
    requires
        call_ensures(KeyRange::build, (o.key_range,), range),
        call_ensures(WatchOptions::into_create, (o,), create),
        call_ensures(<WatchCreateRequest as From<WatchOptions>>::from, (o,), converted),
        call_ensures(<WatchRequest as From<WatchOptions>>::from, (o,), req),
    ensures
        asks_for(create, o, range),
        asks_for(converted, o, range),
        req.request_union matches Some(WatchRequestUnion::CreateRequest(c)) && asks_for(
            c,
            o,
            range,
        ),
{
}

/// A request for a key has all that the options ask for, with the key in place of
/// theirs; without options it asks for the key alone, from now on.
pub proof fn law_request_for_a_key(
    key: Vec<u8>,
    options: Option<WatchOptions>,
    keyed: WatchOptions,
    range: (Vec<u8>, Vec<u8>),
    r: WatchCreateRequest,
)
    requires
        call_ensures(create_request, (key, options), r),
        options matches Some(o) ==> call_ensures(WatchOptions::with_key, (o, key), keyed),
        options matches Some(o) ==> call_ensures(KeyRange::build, (keyed.key_range,), range),
    ensures
        options is Some ==> asks_for(r, keyed, range),
        options is None ==> {
            &&& r.key@ == key@
            &&& r.range_end@.len() == 0
            &&& r.start_revision == 0
            &&& !r.progress_notify
            &&& r.filters@.len() == 0
            &&& !r.prev_kv
            &&& r.watch_id == 0
            &&& !r.fragment
        },
{
}

/// A watch with a prefix is one of exactly the keys that begin with the key.
pub proof fn law_prefix_watch(key: Vec<u8>, o: WatchOptions, r: WatchCreateRequest, k: Seq<u8>)
    requires
        o.key_range.extent == Extent::Prefix,
        call_ensures(create_request, (key, Some(o)), r),
        k.len() > 0,
    ensures
        addresses(r.key@, r.range_end@, k) <==> extends(k, key@),
{
    crate::laws::key_range::lemma_addresses(r.key@, r.range_end@, k);
    crate::rpc::key_range::law_prefix_range(key@, o.key_range.range_end@, k);
    crate::laws::key_range::lemma_extends(k, key@);
}

/// The requests on a stream: one for a watch on the key, one to cancel the watch with
/// the id, and one for progress.
pub proof fn law_stream_requests(
    key: Vec<u8>,
    options: Option<WatchOptions>,
    create: WatchCreateRequest,
    watch: WatchRequest,
    id: i64,
    cancel: WatchRequest,
    progress: WatchRequest,
)
    requires
        call_ensures(create_request, (key, options), create),
        call_ensures(WatchRequest::watch, (key, options), watch),
        call_ensures(WatchRequest::cancel, (id,), cancel),
        call_ensures(WatchRequest::request_progress, (), progress),
    ensures
        watch.request_union matches Some(WatchRequestUnion::CreateRequest(c)) && same_create(
            c,
            create,
        ),
        cancel.request_union matches Some(WatchRequestUnion::CancelRequest(c)) && c.watch_id == id,
        progress.request_union matches Some(WatchRequestUnion::ProgressRequest(_)),
{
}

/// What goes on the stream is what was put into the request.
pub proof fn law_requests_carry_their_kind(
    create: WatchCreateRequest,
    created: WatchRequest,
    cancel: WatchCancelRequest,
    canceled: WatchRequest,
    progress: WatchProgressRequest,
    progressed: WatchRequest,
)
    requires
        call_ensures(<WatchRequest as From<WatchCreateRequest>>::from, (create,), created),
        call_ensures(<WatchRequest as From<WatchCancelRequest>>::from, (cancel,), canceled),
        call_ensures(<WatchRequest as From<WatchProgressRequest>>::from, (progress,), progressed),
    ensures
        created.request_union == Some(WatchRequestUnion::CreateRequest(create)),
        canceled.request_union == Some(WatchRequestUnion::CancelRequest(cancel)),
        progressed.request_union == Some(WatchRequestUnion::ProgressRequest(progress)),
{
}

/// What is read from a response is what came over the wire.
pub proof fn law_response_reads_back(
    pb: PbWatchResponse,
    resp: WatchResponse,
    header: Option<&ResponseHeader>,
    id: i64,
    created: bool,
    canceled: bool,
    compact_revision: i64,
    reason: &str,
    events: &[Event],
)
    requires
        call_ensures(WatchResponse::new, (pb,), resp),
        call_ensures(WatchResponse::header, (&resp,), header),
        call_ensures(WatchResponse::watch_id, (&resp,), id),
        call_ensures(WatchResponse::created, (&resp,), created),
        call_ensures(WatchResponse::canceled, (&resp,), canceled),
        call_ensures(WatchResponse::compact_revision, (&resp,), compact_revision),
        call_ensures(WatchResponse::cancel_reason, (&resp,), reason),
        call_ensures(WatchResponse::events, (&resp,), events),
    ensures
        resp.0 == pb,
        header is Some <==> pb.header is Some,
        header matches Some(h) ==> Some(*h) == pb.header,
        id == pb.watch_id,
        created == pb.created,
        canceled == pb.canceled,
        compact_revision == pb.compact_revision,
        reason@ == pb.cancel_reason@,
        events@ == pb.events@,
{
}

/// A header is taken once: it is handed over, and the response stays as it is without.
pub proof fn law_watch_header_is_taken(resp: &mut WatchResponse, r: Option<ResponseHeader>)
    requires
        call_ensures(WatchResponse::take_header, (resp,), r),
    ensures
        r == old(resp).0.header,
        final(resp).0.header is None,
        final(resp).0.watch_id == old(resp).0.watch_id,
        final(resp).0.created == old(resp).0.created,
        final(resp).0.canceled == old(resp).0.canceled,
        final(resp).0.compact_revision == old(resp).0.compact_revision,
        final(resp).0.cancel_reason == old(resp).0.cancel_reason,
        final(resp).0.fragment == old(resp).0.fragment,
        final(resp).0.events == old(resp).0.events,
{
}

/// What is read from an event is what came over the wire: 0 is a put, and 1 a delete.
pub proof fn law_event_reads_back(
    event: Event,
    kind: EventType,
    kv: Option<&KeyValue>,
    prev_kv: Option<&KeyValue>,
)
    requires
        event.0.kind == 0 || event.0.kind == 1,
        call_ensures(Event::event_type, (&event,), kind),
        call_ensures(Event::kv, (&event,), kv),
        call_ensures(Event::prev_kv, (&event,), prev_kv),
    ensures
        event.0.kind == 0 ==> kind == EventType::Put,
        event.0.kind == 1 ==> kind == EventType::Delete,
        kv is Some <==> event.0.kv is Some,
        kv matches Some(p) ==> Some(*p) == event.0.kv,
        prev_kv is Some <==> event.0.prev_kv is Some,
        prev_kv matches Some(p) ==> Some(*p) == event.0.prev_kv,
{
}

/// The revisions of a header and of a pair are read as they came.
pub proof fn law_revisions_read_back(header: ResponseHeader, a: i64, kv: KeyValue, b: i64)
    requires
        call_ensures(ResponseHeader::revision, (&header,), a),
        call_ensures(KeyValue::mod_revision, (&kv,), b),
    ensures
        a == header.revision,
        b == kv.mod_revision,
{
}

/// A new watch client neither retries nor reconnects, and leaves the message size to the
/// transport.
pub proof fn law_new_watch_client(r: WatchClient)
    requires
        call_ensures(WatchClient::new, (), r),
    ensures
        r.max_decoding_message_size is None,
        r.retry.max_attempts == 1,
        nanos(r.retry.backoff_wait) == 25_000_000,
        !r.retry.watch_reconnect,
        !r.retry.lease_reconnect,
        call_ensures(AtomicUsize::new, (1usize,), *r.retry.endpoint_count),
{
}

/// The failover that is installed is the client's; its message size stays.
pub proof fn law_watch_retry_is_installed(client: &mut WatchClient, retry: RetryConfig)
    requires
        call_ensures(WatchClient::set_retry, (client, retry), ()),
    ensures
        final(client).retry == retry,
        final(client).max_decoding_message_size == old(client).max_decoding_message_size,
{
}

/// The message size that is set is the client's; its failover stays.
pub proof fn law_message_size_is_set(client: WatchClient, limit: usize, r: WatchClient)
    requires
        call_ensures(WatchClient::max_decoding_message_size, (client, limit), r),
    ensures
        r.max_decoding_message_size == Some(limit),
        r.retry == client.retry,
{
}

/// A cloned watch client is the same one, with the same shared endpoint count.
pub proof fn law_watch_client_clone(client: WatchClient, r: WatchClient)
    requires
        call_ensures(<WatchClient as Clone>::clone, (&client,), r),
    ensures
        r.max_decoding_message_size == client.max_decoding_message_size,
        r.retry == client.retry,
{
}

/// The first stream of a watch is opened like a read: within the budget if the stream is
/// to be kept alive, and once if not. A rejected token is not refreshed.
pub proof fn law_first_stream(client: WatchClient, first: RetryRun, retrying: RetryRun)
    requires
        call_ensures(WatchClient::first_open, (&client,), first),
        call_ensures(WatchClient::open_retrying, (&client,), retrying),
    ensures
        first.policy == RetryPolicy::Repeatable,
        !first.reauth,
        first.attempt == 0,
        client.retry.watch_reconnect ==> first == retrying,
        !client.retry.watch_reconnect ==> first.max == 1,
        retrying.policy == RetryPolicy::Repeatable,
        !retrying.reauth,
        retrying.attempt == 0,
        client.retry.max_attempts >= 1 ==> retrying.max == client.retry.max_attempts,
        client.retry.max_attempts == 0 ==> retrying.max == 1,
{
}

/// Without reconnect a watch is the request for its key, and nothing keeps it alive.
pub proof fn law_plain_watch(
    client: WatchClient,
    key: Vec<u8>,
    options: Option<WatchOptions>,
    create: WatchCreateRequest,
    start: WatchStart,
)
    requires
        !client.retry.watch_reconnect,
        call_ensures(create_request, (key, options), create),
        call_ensures(WatchClient::watch, (&client, key, options), start),
    ensures
        start.driver is None,
        start.initial.request_union matches Some(WatchRequestUnion::CreateRequest(c))
            && same_create(c, create),
{
}

/// With reconnect a watch gets an id of its own if it asked for none, and a driver that
/// tracks just this watch, from where it was asked for, and serves requests and
/// responses.
pub proof fn law_driven_watch(
    client: WatchClient,
    key: Vec<u8>,
    options: Option<WatchOptions>,
    create: WatchCreateRequest,
    start: WatchStart,
)
    requires
        client.retry.watch_reconnect,
        create.watch_id < i64::MAX,
        call_ensures(create_request, (key, options), create),
        call_ensures(WatchClient::watch, (&client, key, options), start),
    ensures
        start.initial.request_union matches Some(WatchRequestUnion::CreateRequest(sent)) && {
            &&& same_filter(sent, create)
            &&& sent.start_revision == create.start_revision
            &&& create.watch_id != 0 ==> sent.watch_id == create.watch_id
            &&& create.watch_id == 0 ==> sent.watch_id == 1
            &&& start.driver matches Some(driver)
            &&& forall|id: i64| #[trigger]
                driver.watches@.contains_key(id) <==> id == sent.watch_id
            &&& same_create(driver.watches@[sent.watch_id].create_req, sent)
            &&& driver.watches@[sent.watch_id].from_now <==> create.start_revision == 0
            &&& counts_past(1, sent.watch_id, driver.next_id)
            &&& orderly(driver)
        },
        start.driver matches Some(driver) && {
            &&& forall|id: i64| !driver.seen_created@.contains(id)
            &&& driver.reconnect_attempt == 0
            &&& driver.req_open
            &&& driver.client == client
            &&& driver.retry == client.retry
        },
{
    let driver = start.driver->0;
    let id: i64 = if create.watch_id == 0 {
        1
    } else {
        create.watch_id
    };
    crate::laws::watch_stream::lemma_states(driver.watches@, id);
    assert forall|other: i64| #[trigger] driver.watches@.contains_key(other) <==> other == id by {
        crate::laws::watch_stream::lemma_states(driver.watches@, other);
    }
}

/// A watch can begin whatever it asks for, but with reconnect not with the last id there
/// is.
pub proof fn law_watch_can_begin(
    client: WatchClient,
    key: Vec<u8>,
    options: Option<WatchOptions>,
    create: WatchCreateRequest,
)
    requires
        call_ensures(create_request, (key, options), create),
        client.retry.watch_reconnect ==> create.watch_id < i64::MAX,
    ensures
        call_requires(WatchClient::watch, (&client, key, options)),
{
}

/// The kind of every put and delete can be asked for.
pub proof fn law_event_kind_can_be_read(event: Event)
    requires
        event.0.kind == 0 || event.0.kind == 1,
    ensures
        call_requires(Event::event_type, (&event,)),
{
}

} // verus!
