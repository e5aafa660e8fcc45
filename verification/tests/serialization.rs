use http_gate::classify::Method;
use http_gate::gate::plan_request;
use http_gate::gate::Plan;
use http_gate::json::envelope_json_text;
use http_gate::json::payload_json_text;
use serde_json::Number;
use serde_json::Value;

fn reference_payload(reqid: &str, reqdata: Option<&str>) -> String {
    let mut m = serde_json::Map::new();
    m.insert("reqid".to_string(), Value::String(reqid.to_string()));
    m.insert(
        "reqdata".to_string(),
        match reqdata {
            Some(d) => Value::String(d.to_string()),
            None => Value::Null,
        },
    );
    Value::Object(m).to_string()
}

fn reference_envelope(proto: &str, model: &str, action: &str, data: &[u8]) -> String {
    let mut m = serde_json::Map::new();
    m.insert("proto".to_string(), Value::String(proto.to_string()));
    m.insert("model".to_string(), Value::String(model.to_string()));
    m.insert("action".to_string(), Value::String(action.to_string()));
    m.insert(
        "data".to_string(),
        Value::Array(data.iter().map(|b| Value::Number(Number::from(*b))).collect()),
    );
    m.insert("ext".to_string(), Value::Array(Vec::new()));
    serde_json::to_string(&Value::Object(m)).unwrap()
}

#[test]
fn payload_matches_the_reference_serializer() {
    let cases: [Option<&str>; 5] = [
        None,
        Some("a=1"),
        Some("he said \"hi\" \\ bye"),
        Some("line\nbreak\ttab\r"),
        Some("nul \u{0} unit \u{1f} del \u{7f} snow \u{2603} e\u{301}"),
    ];
    for c in cases {
        let ours = payload_json_text(
            "0123456789abcdef0123456789abcdef",
            &c.map(|s| s.to_string()),
        );
        let reference = reference_payload("0123456789abcdef0123456789abcdef", c);
        assert_eq!(ours, reference);
    }
}

#[test]
fn envelope_matches_the_reference_serializer() {
    let data: Vec<u8> = vec![0, 9, 10, 34, 92, 99, 100, 127, 128, 200, 255];
    let ours = envelope_json_text("users", "/users/5", "query", &data, &Vec::new());
    let reference = reference_envelope("users", "/users/5", "query", &data);
    assert_eq!(ours, reference);
}

#[test]
fn escaped_path_matches_the_reference_serializer() {
    let ours = envelope_json_text("a\"b", "/a\"b/\\\n", "query", &Vec::new(), &Vec::new());
    let reference = reference_envelope("a\"b", "/a\"b/\\\n", "query", b"");
    assert_eq!(ours, reference);
}

#[test]
fn published_message_is_the_enveloped_payload() {
    let rid = "0123456789abcdef0123456789abcdef";
    let p = plan_request(&Method::Get, "/users/5", "a=1", b"", rid).unwrap();
    let message = match p {
        Plan::Publish { message, .. } => message,
        Plan::Respond(_) => panic!("expected a publish"),
    };
    let payload = reference_payload(rid, Some("a=1"));
    let reference = reference_envelope("users", "/users/5", "query", payload.as_bytes());
    assert_eq!(message, reference);
}

#[test]
fn post_message_uses_the_post_action_and_body() {
    let rid = "ffffffffffffffffffffffffffffffff";
    let p = plan_request(&Method::Post, "/pay/now", "ignored", b"amount=3", rid).unwrap();
    match p {
        Plan::Publish {
            channel,
            message,
            reqid,
        } => {
            assert_eq!(channel, "gate2vin");
            assert_eq!(reqid, rid);
            let payload = reference_payload(rid, Some("amount=3"));
            assert_eq!(
                message,
                reference_envelope("pay", "/pay/now", "post", payload.as_bytes())
            );
        }
        Plan::Respond(_) => panic!("expected a publish"),
    }
}

#[test]
fn get_without_query_sends_a_null_reqdata() {
    let rid = "00000000000000000000000000000000";
    let p = plan_request(&Method::Get, "/users", "", b"", rid).unwrap();
    let message = match p {
        Plan::Publish { message, .. } => message,
        Plan::Respond(_) => panic!("expected a publish"),
    };
    let payload = reference_payload(rid, None);
    assert!(payload.contains("\"reqdata\":null"));
    let reference = reference_envelope("users", "/users", "query", payload.as_bytes());
    assert_eq!(message, reference);
}
