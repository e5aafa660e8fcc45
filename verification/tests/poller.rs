use std::collections::HashMap;

use http_gate::errors::GateError;
use http_gate::poll::PollStep;
use http_gate::poll::Poller;
use http_gate::poll::StoreReply;
use http_gate::poll::MAX_POLL_ATTEMPTS;
use http_gate::poll::POLL_INTERVAL_MILLIS;
use http_gate::respond::error_reply;
use http_gate::respond::timeout_reply;
use http_gate::respond::translate_result;
use http_gate::respond::BodyReply;
use http_gate::route::body_key;
use http_gate::route::status_key;

#[test]
fn poller_starts_at_the_first_attempt() {
    assert_eq!(Poller::new().attempts, 1);
}

#[test]
fn a_present_reply_is_found_at_once() {
    let mut p = Poller::new();
    match p.on_status_reply(StoreReply::Present(b"201".to_vec())) {
        PollStep::Found(s) => assert_eq!(s, b"201"),
        _ => panic!("the status entry was present"),
    }
    assert_eq!(p.attempts, 1);
}

#[test]
fn a_failed_store_query_aborts() {
    let mut p = Poller::new();
    assert!(matches!(
        p.on_status_reply(StoreReply::Failed),
        PollStep::Abort
    ));
}

#[test]
fn absent_sleeps_until_the_bound() {
    let mut p = Poller::new();
    assert!(matches!(p.on_status_reply(StoreReply::Absent), PollStep::Sleep));
    assert_eq!(p.attempts, 2);
    p.attempts = MAX_POLL_ATTEMPTS - 1;
    assert!(matches!(p.on_status_reply(StoreReply::Absent), PollStep::Sleep));
    assert_eq!(p.attempts, MAX_POLL_ATTEMPTS);
    assert!(matches!(
        p.on_status_reply(StoreReply::Absent),
        PollStep::TimedOut
    ));
}

#[test]
fn timeout_takes_exactly_the_attempt_budget() {
    let mut p = Poller::new();
    let mut queries: u32 = 0;
    let mut sleeps: u32 = 0;
    loop {
        queries += 1;
        match p.on_status_reply(StoreReply::Absent) {
            PollStep::Sleep => sleeps += 1,
            PollStep::TimedOut => break,
            _ => panic!("no result was ever present"),
        }
    }
    assert_eq!(queries, MAX_POLL_ATTEMPTS);
    assert_eq!(sleeps, MAX_POLL_ATTEMPTS - 1);
    assert_eq!(u64::from(MAX_POLL_ATTEMPTS) * POLL_INTERVAL_MILLIS, 20_000);
}

#[test]
fn round_trip_consumes_the_result_record() {
    let x = "0123456789abcdef0123456789abcdef";
    let mut store: HashMap<String, Vec<u8>> = HashMap::new();
    store.insert(status_key(x), b"201".to_vec());
    store.insert(body_key(x), b"{\"ok\":true}".to_vec());

    let mut p = Poller::new();
    let seen = match store.get(&status_key(x)) {
        Some(v) => StoreReply::Present(v.clone()),
        None => StoreReply::Absent,
    };
    let status_bytes = match p.on_status_reply(seen) {
        PollStep::Found(s) => s,
        _ => panic!("the record was already written"),
    };
    let body = match store.get(&body_key(x)) {
        Some(v) => BodyReply::Present(v.clone()),
        None => BodyReply::Absent,
    };
    store.remove(&status_key(x));
    store.remove(&body_key(x));

    let r = translate_result(&status_bytes, body).unwrap();
    assert_eq!(r.status, 201);
    assert_eq!(r.body, b"{\"ok\":true}");
    assert!(store.is_empty());
}

#[test]
fn timeout_leaves_no_keys_behind() {
    let x = "feedfacefeedfacefeedfacefeedface";
    let store: HashMap<String, Vec<u8>> = HashMap::new();
    let mut p = Poller::new();
    loop {
        let seen = match store.get(&status_key(x)) {
            Some(v) => StoreReply::Present(v.clone()),
            None => StoreReply::Absent,
        };
        match p.on_status_reply(seen) {
            PollStep::Sleep => {}
            PollStep::TimedOut => break,
            _ => panic!("the store stayed empty"),
        }
    }
    assert_eq!(timeout_reply().status, 408);
    assert!(!store.contains_key(&status_key(x)));
    assert!(!store.contains_key(&body_key(x)));
}

#[test]
fn a_missing_body_is_a_malformed_result_not_a_crash() {
    let r = translate_result(&b"201".to_vec(), BodyReply::Absent);
    assert!(matches!(r, Err(GateError::MalformedResult)));
    assert_eq!(error_reply(&GateError::MalformedResult).status, 500);
}

#[test]
fn a_failed_body_query_aborts() {
    let r = translate_result(&b"200".to_vec(), BodyReply::Failed);
    assert!(matches!(r, Err(GateError::UpstreamUnavailable)));
}

#[test]
fn status_parsing_and_its_fallback() {
    let ok = |bytes: &[u8]| {
        translate_result(&bytes.to_vec(), BodyReply::Present(Vec::new()))
            .unwrap()
            .status
    };
    assert_eq!(ok(b"201"), 201);
    assert_eq!(ok(b"+15"), 15);
    assert_eq!(ok(b"0"), 0);
    assert_eq!(ok(b"65535"), 65535);
    assert_eq!(ok(b"65536"), 500);
    assert_eq!(ok(b"99999999999999999999"), 500);
    assert_eq!(ok(b"abc"), 500);
    assert_eq!(ok(b"20a"), 500);
    assert_eq!(ok(b""), 500);
    assert_eq!(ok(b"+"), 500);
    assert_eq!(ok(b"-1"), 500);
    assert_eq!(ok(b" 200"), 500);
    assert_eq!(ok(&[0xff, 0xfe]), 500);
}

#[test]
fn found_reply_carries_version_and_cors_headers() {
    let r = translate_result(&b"200".to_vec(), BodyReply::Present(b"ok".to_vec())).unwrap();
    assert_eq!(r.headers.len(), 2);
    assert_eq!(
        r.headers[0],
        ("ef-http-gate-version".to_string(), "1.0".to_string())
    );
    assert_eq!(
        r.headers[1],
        ("Access-Control-Allow-Origin".to_string(), "*".to_string())
    );
}
