use etcd_client::error::Error;
use etcd_client::failover::RetryConfig;
use etcd_client::retry::RetryStep;
use etcd_client::rpc::watch::{
    Event, EventType, PbEvent, PbWatchResponse, WatchClient, WatchCreateRequest, WatchFilterType,
    WatchOptions, WatchRequest, WatchRequestUnion, WatchResponse,
};
use etcd_client::rpc::watch_driver::{
    assign_watch_id, WatchAction, WatchDriver, WatchEvent, WatchState, INVALID_WATCH_ID,
};
use etcd_client::rpc::{KeyValue, ResponseHeader};
use etcd_client::status::{Code, Status};
use std::collections::{HashMap, HashSet};
use std::time::Duration;

fn ws(from_now: bool, start_revision: i64) -> WatchState {
    WatchState {
        create_req: WatchCreateRequest {
            start_revision,
            ..Default::default()
        },
        from_now,
    }
}

fn header(rev: i64) -> Option<ResponseHeader> {
    Some(ResponseHeader {
        revision: rev,
        ..Default::default()
    })
}

fn event(mod_revision: i64) -> Event {
    Event(PbEvent {
        kv: Some(KeyValue {
            mod_revision,
            ..Default::default()
        }),
        ..Default::default()
    })
}

fn record(
    watches: &mut HashMap<i64, WatchState>,
    seen: &mut HashSet<i64>,
    pb: PbWatchResponse,
) -> bool {
    WatchDriver::record(watches, seen, &WatchResponse(pb))
}

#[test]
fn created_ack_forwarded_once_then_deduped() {
    let mut watches = HashMap::from([(1, ws(false, 7))]);
    let mut seen = HashSet::new();
    assert!(record(
        &mut watches,
        &mut seen,
        PbWatchResponse {
            watch_id: 1,
            created: true,
            header: header(10),
            ..Default::default()
        }
    ));
    assert!(seen.contains(&1));
    // A replayed created ack after a reconnect is suppressed.
    assert!(!record(
        &mut watches,
        &mut seen,
        PbWatchResponse {
            watch_id: 1,
            created: true,
            header: header(10),
            ..Default::default()
        }
    ));
}

#[test]
fn from_now_created_pins_resume_to_header_plus_one() {
    let mut watches = HashMap::from([(1, ws(true, 0))]);
    let mut seen = HashSet::new();
    record(
        &mut watches,
        &mut seen,
        PbWatchResponse {
            watch_id: 1,
            created: true,
            header: header(42),
            ..Default::default()
        },
    );
    assert_eq!(watches[&1].create_req.start_revision, 43);
}

#[test]
fn rejected_create_is_removed_and_forwarded() {
    // A doomed create comes back as created and canceled together.
    let mut watches = HashMap::from([(1, ws(false, 0))]);
    let mut seen = HashSet::new();
    let forwarded = record(
        &mut watches,
        &mut seen,
        PbWatchResponse {
            watch_id: 1,
            created: true,
            canceled: true,
            cancel_reason: "denied".into(),
            header: header(5),
            ..Default::default()
        },
    );
    assert!(forwarded, "caller must see the rejection");
    assert!(
        watches.is_empty(),
        "doomed create must not be replayed on reconnect"
    );
    assert!(!seen.contains(&1));
}

#[test]
fn events_advance_resume_past_last_mod_revision() {
    let mut watches = HashMap::from([(1, ws(false, 0))]);
    let mut seen = HashSet::from([1]);
    record(
        &mut watches,
        &mut seen,
        PbWatchResponse {
            watch_id: 1,
            header: header(20),
            events: vec![event(18), event(20)],
            ..Default::default()
        },
    );
    assert_eq!(watches[&1].create_req.start_revision, 21);
}

#[test]
fn non_final_fragment_holds_resume() {
    let mut watches = HashMap::from([(1, ws(false, 0))]);
    let mut seen = HashSet::from([1]);
    record(
        &mut watches,
        &mut seen,
        PbWatchResponse {
            watch_id: 1,
            header: header(20),
            fragment: true,
            events: vec![event(20)],
            ..Default::default()
        },
    );
    assert_eq!(
        watches[&1].create_req.start_revision, 0,
        "resume must not advance on a non-final fragment"
    );
}

#[test]
fn canceled_removes_watch() {
    let mut watches = HashMap::from([(1, ws(false, 5))]);
    let mut seen = HashSet::from([1]);
    record(
        &mut watches,
        &mut seen,
        PbWatchResponse {
            watch_id: 1,
            canceled: true,
            header: header(9),
            ..Default::default()
        },
    );
    assert!(watches.is_empty());
    assert!(!seen.contains(&1));
}

#[test]
fn broadcast_progress_advances_all_watches() {
    let mut watches = HashMap::from([(1, ws(false, 2)), (2, ws(false, 3))]);
    let mut seen = HashSet::from([1, 2]);
    record(
        &mut watches,
        &mut seen,
        PbWatchResponse {
            watch_id: INVALID_WATCH_ID,
            header: header(50),
            ..Default::default()
        },
    );
    assert_eq!(watches[&1].create_req.start_revision, 51);
    assert_eq!(watches[&2].create_req.start_revision, 51);
}

#[test]
fn resume_never_goes_back() {
    let mut watches = HashMap::from([(1, ws(false, 90)), (2, ws(false, 3))]);
    let mut seen = HashSet::from([1, 2]);
    assert!(record(
        &mut watches,
        &mut seen,
        PbWatchResponse {
            watch_id: INVALID_WATCH_ID,
            header: header(50),
            ..Default::default()
        },
    ));
    assert_eq!(watches[&1].create_req.start_revision, 90);
    assert_eq!(watches[&2].create_req.start_revision, 51);
    assert!(record(
        &mut watches,
        &mut seen,
        PbWatchResponse {
            watch_id: 2,
            header: header(60),
            events: vec![event(40)],
            ..Default::default()
        },
    ));
    assert_eq!(watches[&2].create_req.start_revision, 51);
}

#[test]
fn progress_of_one_watch_advances_to_the_header() {
    let mut watches = HashMap::from([(1, ws(false, 2)), (2, ws(false, 3))]);
    let mut seen = HashSet::from([1, 2]);
    assert!(record(
        &mut watches,
        &mut seen,
        PbWatchResponse {
            watch_id: 1,
            header: header(30),
            ..Default::default()
        },
    ));
    assert_eq!(watches[&1].create_req.start_revision, 31);
    assert_eq!(watches[&2].create_req.start_revision, 3);
}

#[test]
fn compacted_watch_is_over_and_may_come_back() {
    let mut watches = HashMap::from([(4, ws(false, 2))]);
    let mut seen = HashSet::from([4]);
    assert!(record(
        &mut watches,
        &mut seen,
        PbWatchResponse {
            watch_id: 4,
            compact_revision: 17,
            ..Default::default()
        },
    ));
    assert!(watches.is_empty());
    watches.insert(4, ws(false, 17));
    // The id is new again, so its acknowledgement is not a duplicate.
    assert!(record(
        &mut watches,
        &mut seen,
        PbWatchResponse {
            watch_id: 4,
            created: true,
            header: header(20),
            ..Default::default()
        },
    ));
    assert_eq!(watches[&4].create_req.start_revision, 17);
}

#[test]
fn auto_ids_skip_those_in_use() {
    let watches = HashMap::from([(1, ws(false, 0)), (2, ws(false, 0)), (4, ws(false, 0))]);
    let mut next_id = 1;
    let mut create = WatchCreateRequest::default();
    assert_eq!(assign_watch_id(&mut create, &mut next_id, &watches), 3);
    assert_eq!(create.watch_id, 3);
    assert_eq!(next_id, 4);
}

#[test]
fn chosen_ids_are_kept_and_passed_by() {
    let watches = HashMap::new();
    let mut next_id = 1;
    let mut create = WatchCreateRequest {
        watch_id: 9,
        ..Default::default()
    };
    assert_eq!(assign_watch_id(&mut create, &mut next_id, &watches), 9);
    assert_eq!(next_id, 10);
    let mut lower = WatchCreateRequest {
        watch_id: 3,
        ..Default::default()
    };
    assert_eq!(assign_watch_id(&mut lower, &mut next_id, &watches), 3);
    assert_eq!(next_id, 10);
}

fn resilient() -> WatchClient {
    let mut client = WatchClient::new();
    client.set_retry(RetryConfig::new(5, Duration::from_millis(25), 1, true, true));
    client
}

fn created(req: &WatchRequest) -> &WatchCreateRequest {
    match &req.request_union {
        Some(WatchRequestUnion::CreateRequest(create)) => create,
        _ => panic!("not a create request"),
    }
}

fn driver(key: &str, options: Option<WatchOptions>) -> WatchDriver {
    resilient()
        .watch(key.as_bytes().to_vec(), options)
        .driver
        .unwrap()
}

#[test]
fn watch_without_reconnect_is_direct() {
    let client = WatchClient::new().max_decoding_message_size(1024);
    assert_eq!(client.max_decoding_message_size, Some(1024));
    let start = client.watch(b"k".to_vec(), None);
    assert!(start.driver.is_none());
    let create = created(&start.initial);
    assert_eq!(create.key, b"k".to_vec());
    assert_eq!(create.watch_id, 0);
}

#[test]
fn watch_with_reconnect_gets_a_stable_id() {
    let start = resilient().watch(b"k".to_vec(), None);
    let driver = start.driver.unwrap();
    assert_eq!(created(&start.initial).watch_id, 1);
    assert!(driver.watches[&1].from_now);
    assert_eq!(driver.next_id, 2);
    assert!(driver.req_open);

    let options = WatchOptions::new().with_watch_id(7).with_start_revision(3);
    let start = resilient().watch(b"k".to_vec(), Some(options));
    let driver = start.driver.unwrap();
    assert_eq!(created(&start.initial).watch_id, 7);
    assert!(!driver.watches[&7].from_now);
    assert_eq!(driver.next_id, 8);
}

#[test]
fn opening_a_stream_fails_over_within_the_budget() {
    let run = resilient().open_retrying();
    assert_eq!(run.max, 5);
    assert_eq!(run.attempt, 0);
    assert!(!run.reauth);
    assert_eq!(WatchClient::new().open_retrying().max, 1);
}

#[test]
fn first_open_fails_over_only_with_reconnect() {
    let run = resilient().first_open();
    assert_eq!((run.max, run.attempt, run.reauth), (5, 0, false));
    let mut off = WatchClient::new();
    off.set_retry(RetryConfig::new(5, Duration::from_millis(25), 1, false, true));
    let mut run = off.first_open();
    assert_eq!(run.max, 1);
    let down = Error::GRpcStatus(Status::new(Code::Unavailable, "down"));
    assert!(matches!(run.on_result::<u8>(Err(down)), RetryStep::Return(Err(_))));
}

#[test]
fn broken_stream_waits_then_replays_each_watch() {
    let mut d = driver("a", None);
    let second = WatchRequest::watch(b"b".to_vec(), None);
    match d.step(WatchEvent::Request(second)) {
        WatchAction::Send(req) => assert_eq!(created(&req).watch_id, 2),
        other => panic!("unexpected {other:?}"),
    }
    assert!(matches!(d.step(WatchEvent::Sent), WatchAction::Listen));
    for id in [1, 2] {
        let ack = WatchResponse::new(PbWatchResponse {
            watch_id: id,
            created: true,
            header: header(10 * id),
            ..Default::default()
        });
        assert!(d.accepts(&WatchEvent::Response(ack.clone())));
        assert!(matches!(
            d.step(WatchEvent::Response(ack)),
            WatchAction::Deliver(_)
        ));
    }
    match d.step(WatchEvent::StreamBroken { output_closed: false }) {
        WatchAction::Wait(wait) => assert_eq!(wait, Duration::from_millis(25)),
        other => panic!("unexpected {other:?}"),
    }
    match d.step(WatchEvent::Waited) {
        WatchAction::Open(reqs) => {
            let mut seen: Vec<(i64, i64)> = reqs
                .iter()
                .map(|r| (created(r).watch_id, created(r).start_revision))
                .collect();
            seen.sort();
            assert_eq!(seen, vec![(1, 11), (2, 21)]);
        }
        other => panic!("unexpected {other:?}"),
    }
    assert!(matches!(d.step(WatchEvent::Opened), WatchAction::Listen));
    // The acks echoed by the new stream are not delivered again.
    let echo = WatchResponse::new(PbWatchResponse {
        watch_id: 2,
        created: true,
        header: header(40),
        ..Default::default()
    });
    assert!(matches!(
        d.step(WatchEvent::Response(echo)),
        WatchAction::Listen
    ));
    assert_eq!(d.watches[&2].create_req.start_revision, 21);
    assert_eq!(d.reconnect_attempt, 0);
}

#[test]
fn reconnect_wait_grows_until_a_response() {
    let mut d = driver("a", None);
    let unavailable = || Error::GRpcStatus(Status::new(Code::Unavailable, "down"));
    assert!(matches!(
        d.step(WatchEvent::SendFailed { output_closed: false }),
        WatchAction::Wait(wait) if wait == Duration::from_millis(25)
    ));
    for expected in [50, 100, 200] {
        let event = WatchEvent::OpenFailed { error: unavailable(), output_closed: false };
        match d.step(event) {
            WatchAction::Wait(wait) => assert_eq!(wait, Duration::from_millis(expected)),
            other => panic!("unexpected {other:?}"),
        }
    }
    let progress = WatchResponse::new(PbWatchResponse {
        watch_id: 1,
        header: header(5),
        ..Default::default()
    });
    assert!(matches!(
        d.step(WatchEvent::Response(progress)),
        WatchAction::Deliver(_)
    ));
    assert!(matches!(
        d.step(WatchEvent::StreamBroken { output_closed: false }),
        WatchAction::Wait(wait) if wait == Duration::from_millis(25)
    ));
}

#[test]
fn permanent_error_gives_up_and_closed_output_stops() {
    let mut d = driver("a", None);
    let denied = Error::GRpcStatus(Status::new(Code::Unauthenticated, "invalid auth token"));
    assert!(matches!(
        d.step(WatchEvent::OpenFailed { error: denied, output_closed: false }),
        WatchAction::GiveUp(Error::GRpcStatus(_))
    ));
    let down = Error::GRpcStatus(Status::new(Code::Unavailable, "down"));
    assert!(matches!(
        d.step(WatchEvent::OpenFailed { error: down, output_closed: true }),
        WatchAction::Stop
    ));
    assert!(matches!(d.step(WatchEvent::OutputClosed), WatchAction::Stop));
    assert!(matches!(d.step(WatchEvent::DeliveryFailed), WatchAction::Stop));
    assert!(matches!(
        d.step(WatchEvent::StreamBroken { output_closed: true }),
        WatchAction::Stop
    ));
}

#[test]
fn canceled_watch_is_not_replayed_and_an_idle_driver_stops() {
    let mut d = driver("a", None);
    match d.step(WatchEvent::Request(WatchRequest::cancel(1))) {
        WatchAction::Send(req) => assert!(matches!(
            req.request_union,
            Some(WatchRequestUnion::CancelRequest(c)) if c.watch_id == 1
        )),
        other => panic!("unexpected {other:?}"),
    }
    assert!(d.replay().is_empty());
    assert!(matches!(
        d.step(WatchEvent::StreamBroken { output_closed: false }),
        WatchAction::Stop
    ));
}

#[test]
fn closing_the_request_side_keeps_responses_coming() {
    let mut d = driver("a", None);
    assert!(matches!(
        d.step(WatchEvent::RequestsClosed),
        WatchAction::Listen
    ));
    assert!(!d.req_open);
    assert!(matches!(d.step(WatchEvent::Delivered), WatchAction::Listen));
    let progress = WatchRequest::request_progress();
    assert!(matches!(
        d.step(WatchEvent::Request(progress)),
        WatchAction::Send(WatchRequest {
            request_union: Some(WatchRequestUnion::ProgressRequest(_))
        })
    ));
}

#[test]
fn events_past_the_largest_number_are_told() {
    let d = driver("a", None);
    let ack = |rev: i64| {
        WatchEvent::Response(WatchResponse::new(PbWatchResponse {
            watch_id: 1,
            created: true,
            header: header(rev),
            ..Default::default()
        }))
    };
    assert!(!d.accepts(&ack(i64::MAX)));
    assert!(d.accepts(&ack(i64::MAX - 1)));
    let chosen = |id: i64| {
        let options = WatchOptions::new().with_watch_id(id);
        WatchEvent::Request(WatchRequest::watch(b"k".to_vec(), Some(options)))
    };
    assert!(!d.accepts(&chosen(i64::MAX)));
    assert!(d.accepts(&chosen(i64::MAX - 1)));
    assert!(d.accepts(&WatchEvent::Waited));
}

#[test]
fn options_build_the_request() {
    let options = WatchOptions::default()
        .with_prefix()
        .with_start_revision(12)
        .with_progress_notify()
        .with_filters(vec![WatchFilterType::NoDelete, WatchFilterType::NoPut])
        .with_prev_key()
        .with_fragment();
    let create = WatchCreateRequest::from(options.clone().with_key(b"ab".to_vec()));
    assert_eq!(create.key, b"ab".to_vec());
    assert_eq!(create.range_end, b"ac".to_vec());
    assert_eq!(create.start_revision, 12);
    assert!(create.progress_notify);
    assert_eq!(create.filters, vec![1, 0]);
    assert!(create.prev_kv);
    assert!(create.fragment);
    assert_eq!(create.watch_id, 0);

    let req = WatchRequest::from(options.with_key(b"ab".to_vec()).with_range(b"zz".to_vec()));
    assert_eq!(created(&req).range_end, b"zz".to_vec());
    let all = WatchOptions::new().with_all_keys().with_key(b"ab".to_vec());
    let create = WatchCreateRequest::from(all);
    assert_eq!((create.key, create.range_end), (vec![0], vec![0]));
    let from = WatchOptions::new().with_from_key().with_key(b"ab".to_vec());
    let create = WatchCreateRequest::from(from);
    assert_eq!((create.key, create.range_end), (b"ab".to_vec(), vec![0]));
}

#[test]
fn response_getters_read_the_fields() {
    let mut resp = WatchResponse::new(PbWatchResponse {
        watch_id: 3,
        created: true,
        canceled: true,
        compact_revision: 8,
        cancel_reason: "gone".to_string(),
        header: header(6),
        events: vec![Event(PbEvent { kind: 1, kv: None, prev_kv: None }), event(4)],
        ..Default::default()
    });
    assert_eq!(resp.watch_id(), 3);
    assert!(resp.created());
    assert!(resp.canceled());
    assert_eq!(resp.compact_revision(), 8);
    assert_eq!(resp.cancel_reason(), "gone");
    assert_eq!(resp.header().unwrap().revision(), 6);
    assert_eq!(resp.events().len(), 2);
    assert_eq!(resp.events()[0].event_type(), EventType::Delete);
    assert_eq!(resp.events()[1].event_type(), EventType::Put);
    assert_eq!(resp.events()[1].kv().unwrap().mod_revision(), 4);
    assert!(resp.events()[1].prev_kv().is_none());
    assert_eq!(resp.take_header().unwrap().revision, 6);
    assert!(resp.header().is_none());
}
