use etcd_client::error::Error;
use etcd_client::failover::RetryConfig;
use etcd_client::rpc::lease::{
    LeaseClient, LeaseGrantOptions, LeaseGrantResponse, LeaseKeepAliveOptions,
    LeaseKeepAliveResponse, LeaseLeasesResponse, LeaseRevokeOptions, LeaseRevokeResponse,
    LeaseStatus, LeaseTimeToLiveOptions, LeaseTimeToLiveResponse, PbLeaseGrantRequest,
    PbLeaseGrantResponse, PbLeaseKeepAliveRequest, PbLeaseKeepAliveResponse,
    PbLeaseLeasesResponse, PbLeaseRevokeRequest, PbLeaseRevokeResponse, PbLeaseStatus,
    PbLeaseTimeToLiveRequest, PbLeaseTimeToLiveResponse,
};
use etcd_client::rpc::lease_driver::{LeaseAction, LeaseEvent, LeaseKeepAliveDriver};
use etcd_client::rpc::ResponseHeader;
use etcd_client::status::{Code, Status};
use std::time::Duration;

fn header(revision: i64) -> Option<ResponseHeader> {
    Some(ResponseHeader {
        revision,
        ..Default::default()
    })
}

fn resilient() -> LeaseClient {
    let mut client = LeaseClient::new();
    client.set_retry(RetryConfig::new(4, Duration::from_millis(10), 1, true, true));
    client
}

fn reply(id: i64, ttl: i64) -> PbLeaseKeepAliveResponse {
    PbLeaseKeepAliveResponse { header: header(1), id, ttl }
}

fn driver(id: i64) -> LeaseKeepAliveDriver {
    resilient()
        .keep_alive_opened(Some(reply(id, 60)))
        .unwrap()
        .driver
        .unwrap()
}

#[test]
fn requests_carry_their_options() {
    let client = LeaseClient::new();
    assert_eq!(client.grant(60, None), PbLeaseGrantRequest { ttl: 60, id: 0 });
    let options = LeaseGrantOptions::new().with_id(5);
    assert_eq!(client.grant(60, Some(options)), PbLeaseGrantRequest { ttl: 60, id: 5 });
    assert_eq!(client.revoke(9), PbLeaseRevokeRequest { id: 9 });
    assert_eq!(client.keep_alive(9), PbLeaseKeepAliveRequest { id: 9 });
    assert_eq!(
        client.time_to_live(9, None),
        PbLeaseTimeToLiveRequest { id: 9, keys: false }
    );
    let options = LeaseTimeToLiveOptions::new().with_keys();
    assert_eq!(
        client.time_to_live(9, Some(options)),
        PbLeaseTimeToLiveRequest { id: 9, keys: true }
    );
    let _ = client.leases();
}

#[test]
fn options_convert_to_requests() {
    let grant = LeaseGrantOptions::default().with_ttl(3).with_id(4);
    assert_eq!(PbLeaseGrantRequest::from(grant), PbLeaseGrantRequest { ttl: 3, id: 4 });
    let revoke = LeaseRevokeOptions::default().with_id(4);
    assert_eq!(PbLeaseRevokeRequest::from(revoke), PbLeaseRevokeRequest { id: 4 });
    let alive = LeaseKeepAliveOptions::default().with_id(4);
    assert_eq!(PbLeaseKeepAliveRequest::from(alive), PbLeaseKeepAliveRequest { id: 4 });
    let ttl = LeaseTimeToLiveOptions::default().with_keys().with_id(2);
    assert_eq!(
        PbLeaseTimeToLiveRequest::from(ttl),
        PbLeaseTimeToLiveRequest { id: 2, keys: true }
    );
}

#[test]
fn first_response_validates_the_lease() {
    let client = resilient();
    match client.keep_alive_opened(Some(reply(7, 0))) {
        Err(Error::LeaseKeepAliveError(message)) => assert_eq!(message, "lease not found"),
        other => panic!("unexpected {other:?}"),
    }
    match client.keep_alive_opened(None) {
        Err(Error::WatchError(message)) => assert_eq!(message, "failed to create lease keeper"),
        other => panic!("unexpected {other:?}"),
    }
    let start = client.keep_alive_opened(Some(reply(7, 60))).unwrap();
    assert_eq!(start.keeper.id(), 7);
    assert_eq!(start.keeper.keep_alive(), PbLeaseKeepAliveRequest { id: 7 });
    let driver = start.driver.unwrap();
    assert!(driver.lease_ids.contains(&7));
    assert_eq!(driver.lease_ids.len(), 1);
    let direct = LeaseClient::new().keep_alive_opened(Some(reply(7, 60))).unwrap();
    assert!(direct.driver.is_none());
    assert_eq!(client.open_retrying().max, 4);
}

#[test]
fn broken_stream_renews_every_lease() {
    let mut d = driver(1);
    match d.step(LeaseEvent::Request(PbLeaseKeepAliveRequest { id: 2 })) {
        LeaseAction::Send(req) => assert_eq!(req.id, 2),
        other => panic!("unexpected {other:?}"),
    }
    match d.step(LeaseEvent::SendFailed { output_closed: false }) {
        LeaseAction::Wait(wait) => assert_eq!(wait, Duration::from_millis(10)),
        other => panic!("unexpected {other:?}"),
    }
    let down = Error::GRpcStatus(Status::new(Code::Unavailable, "down"));
    match d.step(LeaseEvent::OpenFailed { error: down, output_closed: false }) {
        LeaseAction::Wait(wait) => assert_eq!(wait, Duration::from_millis(20)),
        other => panic!("unexpected {other:?}"),
    }
    match d.step(LeaseEvent::Waited) {
        LeaseAction::Open(reqs) => {
            let mut ids: Vec<i64> = reqs.iter().map(|r| r.id).collect();
            ids.sort();
            assert_eq!(ids, vec![1, 2]);
        }
        other => panic!("unexpected {other:?}"),
    }
    assert!(matches!(d.step(LeaseEvent::Opened), LeaseAction::Listen));
}

#[test]
fn expired_lease_is_delivered_then_dropped() {
    let mut d = driver(1);
    d.step(LeaseEvent::Request(PbLeaseKeepAliveRequest { id: 2 }));
    assert!(matches!(d.step(LeaseEvent::Sent), LeaseAction::Listen));
    let gone = LeaseKeepAliveResponse::new(reply(2, 0));
    match d.step(LeaseEvent::Response(gone)) {
        LeaseAction::Deliver(resp) => assert_eq!((resp.id(), resp.ttl()), (2, 0)),
        other => panic!("unexpected {other:?}"),
    }
    assert!(matches!(d.step(LeaseEvent::Delivered), LeaseAction::Listen));
    let alive = LeaseKeepAliveResponse::new(reply(1, 30));
    assert!(matches!(d.step(LeaseEvent::Response(alive)), LeaseAction::Deliver(_)));
    assert!(d.lease_ids.contains(&1));
    let gone = LeaseKeepAliveResponse::new(reply(1, -1));
    assert!(matches!(d.step(LeaseEvent::Response(gone)), LeaseAction::Deliver(_)));
    assert!(matches!(d.step(LeaseEvent::Delivered), LeaseAction::Stop));
    assert!(matches!(
        d.step(LeaseEvent::StreamBroken { output_closed: false }),
        LeaseAction::Stop
    ));
}

#[test]
fn response_resets_the_reconnect_wait() {
    let mut d = driver(1);
    for expected in [10, 20, 40] {
        match d.step(LeaseEvent::StreamBroken { output_closed: false }) {
            LeaseAction::Wait(wait) => assert_eq!(wait, Duration::from_millis(expected)),
            other => panic!("unexpected {other:?}"),
        }
    }
    d.step(LeaseEvent::Response(LeaseKeepAliveResponse::new(reply(1, 30))));
    match d.step(LeaseEvent::StreamBroken { output_closed: false }) {
        LeaseAction::Wait(wait) => assert_eq!(wait, Duration::from_millis(10)),
        other => panic!("unexpected {other:?}"),
    }
}

#[test]
fn driver_stops_with_its_caller_and_on_permanent_errors() {
    let mut d = driver(1);
    assert!(matches!(d.step(LeaseEvent::RequestsClosed), LeaseAction::Listen));
    assert!(!d.req_open);
    assert!(matches!(d.step(LeaseEvent::OutputClosed), LeaseAction::Stop));
    assert!(matches!(d.step(LeaseEvent::DeliveryFailed), LeaseAction::Stop));
    assert!(matches!(
        d.step(LeaseEvent::StreamBroken { output_closed: true }),
        LeaseAction::Stop
    ));
    let denied = Error::GRpcStatus(Status::new(Code::PermissionDenied, "no"));
    assert!(matches!(
        d.step(LeaseEvent::OpenFailed { error: denied, output_closed: false }),
        LeaseAction::GiveUp(Error::GRpcStatus(_))
    ));
}

#[test]
fn key_prefix_is_stripped_where_it_stands() {
    let mut resp = LeaseTimeToLiveResponse::new(PbLeaseTimeToLiveResponse {
        header: header(3),
        id: 8,
        ttl: 40,
        granted_ttl: 60,
        keys: vec![
            b"ns/a".to_vec(),
            b"other".to_vec(),
            b"ns/".to_vec(),
            b"n".to_vec(),
        ],
    });
    resp.strip_keys_prefix(b"ns/");
    assert_eq!(
        resp.keys(),
        &[b"a".to_vec(), b"other".to_vec(), b"".to_vec(), b"n".to_vec()]
    );
    assert_eq!((resp.id(), resp.ttl(), resp.granted_ttl()), (8, 40, 60));
    assert_eq!(resp.header().unwrap().revision(), 3);
    assert_eq!(resp.take_header().unwrap().revision, 3);
    assert!(resp.header().is_none());
}

#[test]
fn responses_hand_out_their_fields() {
    let mut grant = LeaseGrantResponse::new(PbLeaseGrantResponse {
        header: header(2),
        id: 5,
        ttl: 60,
        error: "oops".to_string(),
    });
    assert_eq!((grant.id(), grant.ttl(), grant.error()), (5, 60, "oops"));
    assert_eq!(grant.header().unwrap().revision, 2);
    assert!(grant.take_header().is_some());
    assert!(grant.take_header().is_none());

    let mut revoke = LeaseRevokeResponse::new(PbLeaseRevokeResponse { header: header(4) });
    assert_eq!(revoke.header().unwrap().revision, 4);
    assert_eq!(revoke.take_header().unwrap().revision, 4);
    assert!(revoke.header().is_none());

    let mut alive = LeaseKeepAliveResponse::new(reply(5, 6));
    assert_eq!(alive.header().unwrap().revision, 1);
    assert!(alive.take_header().is_some());
    assert!(alive.header().is_none());
    assert_eq!((alive.id(), alive.ttl()), (5, 6));

    let mut list = LeaseLeasesResponse::new(PbLeaseLeasesResponse {
        header: header(1),
        leases: vec![LeaseStatus(PbLeaseStatus { id: 11 }), LeaseStatus(PbLeaseStatus { id: 12 })],
    });
    assert_eq!(list.leases().len(), 2);
    assert_eq!(list.leases()[1].id(), 12);
    assert_eq!(list.header().unwrap().revision, 1);
    assert!(list.take_header().is_some());
    assert!(list.header().is_none());
}
