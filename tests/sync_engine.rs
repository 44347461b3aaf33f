use matrix_ircd::{
    build_sync_target, decode_sync_payload, MISSING_NEXT_BATCH, BaseUrl, MatrixSyncClient, SyncError, SyncPhase,
    SyncPoll, TransportPoll, WireResponse, SYNC_PATH,
};

fn base() -> BaseUrl {
    BaseUrl::new("localhost".to_string(), 8080)
}

fn ready(code: u16, body: &str) -> TransportPoll {
    TransportPoll::Ready(WireResponse { code, data: body.as_bytes().to_vec() })
}

const FILTER_ENCODED: &str =
    "%7B%22presence%22%3A%7B%22not_types%22%3A%5B%22m.presence%22%5D%7D%7D";

#[test]
fn first_request_has_no_since() {
    let mut client = MatrixSyncClient::new(&base(), "tok".to_string());
    let req = client.next_request().unwrap();
    assert_eq!(req.method, "GET");
    assert_eq!(
        req.target,
        format!("{}?access_token=tok&filter={}&timeout=30000", SYNC_PATH, FILTER_ENCODED)
    );
    assert!(!req.target.contains("since="));
    assert_eq!(client.phase(), SyncPhase::Awaiting);
}

#[test]
fn next_request_after_success_carries_since() {
    let mut client = MatrixSyncClient::new(&base(), "tok".to_string());
    client.next_request().unwrap();
    let r = client.poll_sync(ready(200, r#"{"next_batch":"t1","events":[]}"#));
    match r {
        Ok(SyncPoll::Ready(p)) => assert_eq!(p.next_batch(), "t1"),
        _ => panic!("expected a payload"),
    }
    assert_eq!(client.next_token(), Some("t1"));
    assert_eq!(client.phase(), SyncPhase::Idle);
    let req = client.next_request().unwrap();
    assert!(req.target.contains("since=t1"));
    assert!(req.target.ends_with("&timeout=30000&since=t1"));
}

#[test]
fn since_follows_each_cycle_without_stale_values() {
    let mut client = MatrixSyncClient::new(&base(), "tok".to_string());
    for token in ["a1", "b2", "c3"] {
        client.next_request().unwrap();
        let body = format!(r#"{{"next_batch":"{}"}}"#, token);
        assert!(matches!(client.poll_sync(ready(200, &body)), Ok(SyncPoll::Ready(_))));
        let req = client.next_request().unwrap();
        assert_eq!(req.target.matches("since=").count(), 1);
        assert!(req.target.ends_with(&format!("since={}", token)));
        assert!(matches!(client.poll_sync(ready(200, &body)), Ok(SyncPoll::Ready(_))));
    }
}

#[test]
fn status_429_is_a_protocol_error() {
    let mut client = MatrixSyncClient::new(&base(), "tok".to_string());
    client.next_request().unwrap();
    match client.poll_sync(ready(429, "")) {
        Err(SyncError::Status(code)) => assert_eq!(code, 429),
        _ => panic!("expected a status error"),
    }
    assert_eq!(client.next_token(), None);
    assert_eq!(client.phase(), SyncPhase::Failed);
    assert!(client.next_request().is_none());
    let mut fresh = MatrixSyncClient::new(&base(), "tok".to_string());
    let req = fresh.next_request().unwrap();
    assert!(!req.target.contains("since="));
}

#[test]
fn non_200_keeps_token() {
    let mut client = MatrixSyncClient::resume(&base(), "tok".to_string(), "old".to_string());
    client.next_request().unwrap();
    assert!(matches!(client.poll_sync(ready(500, "{}")), Err(SyncError::Status(500))));
    assert_eq!(client.next_token(), Some("old"));
}

#[test]
fn invalid_json_is_a_decode_error() {
    let mut client = MatrixSyncClient::resume(&base(), "tok".to_string(), "old".to_string());
    client.next_request().unwrap();
    match client.poll_sync(ready(200, "not json")) {
        Err(SyncError::Decode(reason)) => {
            let expected = serde_json::from_slice::<serde_json::Value>(b"not json").unwrap_err();
            assert_eq!(reason, expected.to_string());
        }
        _ => panic!("expected a decode error"),
    }
    assert_eq!(client.next_token(), Some("old"));
    assert_eq!(client.phase(), SyncPhase::Failed);
}

#[test]
fn missing_next_batch_is_a_decode_error() {
    let mut client = MatrixSyncClient::new(&base(), "tok".to_string());
    client.next_request().unwrap();
    let r = client.poll_sync(ready(200, r#"{"events":[]}"#));
    match r {
        Err(SyncError::Decode(reason)) => assert_eq!(reason, MISSING_NEXT_BATCH),
        _ => panic!("expected a decode error"),
    }
    assert_eq!(client.next_token(), None);
}

#[test]
fn pending_poll_changes_nothing() {
    let mut client = MatrixSyncClient::new(&base(), "tok".to_string());
    client.next_request().unwrap();
    for _ in 0..3 {
        assert!(matches!(client.poll_sync(TransportPoll::Pending), Ok(SyncPoll::NotReady)));
        assert_eq!(client.phase(), SyncPhase::Awaiting);
        assert_eq!(client.next_token(), None);
    }
}

#[test]
fn transport_failure_is_an_io_error() {
    let mut client = MatrixSyncClient::new(&base(), "tok".to_string());
    client.next_request().unwrap();
    match client.poll_sync(TransportPoll::Failed("reset".to_string())) {
        Err(SyncError::Io(msg)) => assert_eq!(msg, "reset"),
        _ => panic!("expected an io error"),
    }
    assert_eq!(client.phase(), SyncPhase::Failed);
}

#[test]
fn only_one_request_outstanding() {
    let mut client = MatrixSyncClient::new(&base(), "tok".to_string());
    assert!(client.next_request().is_some());
    assert!(client.next_request().is_none());
    assert!(client.next_request().is_none());
}

#[test]
fn query_values_are_form_encoded() {
    let t = build_sync_target("a b&c", Some("s_1/2"));
    assert_eq!(
        t,
        format!(
            "{}?access_token=a+b%26c&filter={}&timeout=30000&since=s_1%2F2",
            SYNC_PATH, FILTER_ENCODED
        )
    );
}

#[test]
fn decode_reads_next_batch() {
    let p = decode_sync_payload(br#"{"next_batch":"s9","rooms":{}}"#).ok().unwrap();
    assert_eq!(p.next_batch(), "s9");
    assert!(p.body().get("rooms").is_some());
    assert!(decode_sync_payload(br#"{"next_batch":5}"#).is_err());
    assert!(decode_sync_payload(b"[").is_err());
}
