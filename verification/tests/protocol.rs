use phx_channels::envelope::{decode_envelope, encode_envelope, Envelope, EnvelopeError};
use phx_channels::json::JsonValue;
use phx_channels::socket::Socket;

fn jstr(x: &str) -> JsonValue {
    JsonValue::Str(x.to_string())
}

fn obj(fields: Vec<(&str, JsonValue)>) -> JsonValue {
    JsonValue::Obj(fields.into_iter().map(|(k, v)| (k.to_string(), v)).collect())
}

fn sample_envelope() -> Envelope {
    Envelope {
        join_ref: Some("1".to_string()),
        msg_ref: Some("2".to_string()),
        topic: Some("room:1".to_string()),
        event: "msg".to_string(),
        payload: obj(vec![("body", jstr("hi"))]),
    }
}

#[test]
fn encode_envelope_wire_tuple() {
    let wire = encode_envelope(sample_envelope());
    let expected = JsonValue::Arr(vec![
        jstr("1"),
        jstr("2"),
        jstr("room:1"),
        jstr("msg"),
        obj(vec![("body", jstr("hi"))]),
    ]);
    assert_eq!(wire, expected);
}

#[test]
fn round_trip_reproduces_tuple() {
    let wire = encode_envelope(sample_envelope());
    let back = decode_envelope(wire).unwrap();
    assert_eq!(back, sample_envelope());
}

#[test]
fn round_trip_null_refs() {
    let e = Envelope {
        join_ref: None,
        msg_ref: None,
        topic: None,
        event: "msg".to_string(),
        payload: JsonValue::Null,
    };
    let back = decode_envelope(encode_envelope(e)).unwrap();
    assert_eq!(back.join_ref, None);
    assert_eq!(back.msg_ref, None);
    assert_eq!(back.topic, None);
    assert_eq!(back.event, "msg".to_string());
    assert_eq!(back.payload, JsonValue::Null);
}

#[test]
fn decode_rejects_non_array() {
    assert_eq!(decode_envelope(jstr("nope")), Err(EnvelopeError::NotArray));
}

#[test]
fn decode_rejects_wrong_arity() {
    let four = JsonValue::Arr(vec![JsonValue::Null, JsonValue::Null, JsonValue::Null, jstr("e")]);
    assert_eq!(decode_envelope(four), Err(EnvelopeError::WrongArity));
}

#[test]
fn decode_rejects_non_string_ref() {
    let bad = JsonValue::Arr(vec![
        JsonValue::Int(3),
        JsonValue::Null,
        jstr("room:1"),
        jstr("msg"),
        JsonValue::Null,
    ]);
    assert_eq!(decode_envelope(bad), Err(EnvelopeError::RefNotString));
}

#[test]
fn decode_rejects_non_string_event() {
    let bad = JsonValue::Arr(vec![
        JsonValue::Null,
        JsonValue::Null,
        JsonValue::Null,
        JsonValue::Int(9),
        JsonValue::Null,
    ]);
    assert_eq!(decode_envelope(bad), Err(EnvelopeError::EventNotString));
}

#[test]
fn from_message_stores_refs() {
    let mut socket = Socket::with_id("A".to_string());
    let frame = JsonValue::Arr(vec![
        jstr("1"),
        jstr("2"),
        jstr("room:1"),
        jstr("msg"),
        JsonValue::Null,
    ]);
    socket.from_message(&frame).unwrap();
    assert_eq!(socket.join_ref, Some("1".to_string()));
    assert_eq!(socket.msg_ref, Some("2".to_string()));
    assert_eq!(socket.topic(), Some("room:1".to_string()));
}

#[test]
fn from_message_nullable_slots() {
    let mut socket = Socket::with_id("A".to_string());
    let frame = JsonValue::Arr(vec![
        JsonValue::Null,
        JsonValue::Null,
        JsonValue::Null,
        jstr("heartbeat"),
        JsonValue::Null,
    ]);
    socket.from_message(&frame).unwrap();
    assert_eq!(socket.join_ref, None);
    assert_eq!(socket.msg_ref, None);
    assert_eq!(socket.topic(), None);
}

#[test]
fn from_message_rejects_and_keeps_state() {
    let mut socket = Socket::with_id("A".to_string());
    let good = JsonValue::Arr(vec![
        jstr("1"),
        JsonValue::Null,
        jstr("room:1"),
        jstr("msg"),
        JsonValue::Null,
    ]);
    socket.from_message(&good).unwrap();
    let bad = JsonValue::Arr(vec![
        JsonValue::Bool(true),
        JsonValue::Null,
        JsonValue::Null,
        jstr("msg"),
        JsonValue::Null,
    ]);
    assert_eq!(socket.from_message(&bad), Err(EnvelopeError::RefNotString));
    assert_eq!(socket.join_ref, Some("1".to_string()));
    assert_eq!(socket.topic(), Some("room:1".to_string()));
}

#[test]
fn value_accessors() {
    assert!(JsonValue::Null.is_null());
    assert!(!jstr("x").is_null());
    assert_eq!(jstr("x").as_str(), Some(&"x".to_string()));
    assert_eq!(JsonValue::Int(1).as_str(), None);
    assert!(phx_channels::json::str_eq("room:1", "room:1"));
    assert!(!phx_channels::json::str_eq("room:1", "room:2"));
}

#[test]
fn assigns_map_membership() {
    let mut socket = Socket::with_id("A".to_string());
    socket.assign("k", JsonValue::Bool(true));
    assert!(socket.assigns().contains_key("k"));
    assert!(!socket.assigns().contains_key("missing"));
}

#[test]
fn assign_upserts_scratch_data() {
    let mut socket = Socket::with_id("A".to_string());
    socket.assign("count", JsonValue::Int(1));
    socket.assign("count", JsonValue::Int(2));
    socket.assign("name", jstr("ada"));
    assert_eq!(socket.assigns().get("count"), Some(&JsonValue::Int(2)));
    assert_eq!(socket.assigns().get("name"), Some(&jstr("ada")));
    assert_eq!(socket.assigns().get("missing"), None);
}

#[test]
fn membership_join_then_leave() {
    let mut socket = Socket::with_id("A".to_string());
    socket.join_channel("room:1");
    assert!(socket.contains_channel("room:1"));
    socket.leave_channel("room:1");
    assert!(!socket.contains_channel("room:1"));
}

#[test]
fn membership_leave_without_join_is_noop() {
    let mut socket = Socket::with_id("A".to_string());
    socket.join_channel("room:2");
    socket.leave_channel("room:1");
    assert!(!socket.contains_channel("room:1"));
    assert!(socket.contains_channel("room:2"));
}

#[test]
fn membership_join_is_idempotent() {
    let mut socket = Socket::with_id("A".to_string());
    socket.join_channel("room:1");
    socket.join_channel("room:1");
    socket.leave_channel("room:1");
    assert!(!socket.contains_channel("room:1"));
}

#[test]
fn default_socket_is_fresh() {
    let socket = Socket::default();
    assert_eq!(socket.id().chars().count(), 21);
    assert!(!socket.is_joined());
    assert_eq!(socket.topic(), None);
    assert!(!socket.contains_channel("room:1"));
}

#[test]
fn marking_joined_is_idempotent() {
    let mut socket = Socket::with_id("A".to_string());
    assert!(!socket.is_joined());
    socket.joined();
    socket.joined();
    assert!(socket.is_joined());
}

#[test]
fn push_echoes_stored_refs() {
    let mut socket = Socket::with_id("A".to_string());
    let frame = JsonValue::Arr(vec![
        jstr("7"),
        jstr("8"),
        jstr("room:9"),
        jstr("msg"),
        JsonValue::Null,
    ]);
    socket.from_message(&frame).unwrap();
    let out = socket.push("custom", jstr("data"));
    let expected = JsonValue::Arr(vec![
        jstr("7"),
        jstr("8"),
        jstr("room:9"),
        jstr("custom"),
        jstr("data"),
    ]);
    assert_eq!(out, expected);
}

#[test]
fn reply_wraps_response_and_status() {
    let mut socket = Socket::with_id("A".to_string());
    let frame = JsonValue::Arr(vec![
        jstr("1"),
        jstr("2"),
        jstr("room:1"),
        jstr("msg"),
        JsonValue::Null,
    ]);
    socket.from_message(&frame).unwrap();
    let out = socket.reply("error", jstr("bad"));
    let expected = JsonValue::Arr(vec![
        jstr("1"),
        jstr("2"),
        jstr("room:1"),
        jstr("phx_reply"),
        obj(vec![("response", jstr("bad")), ("status", jstr("error"))]),
    ]);
    assert_eq!(out, expected);
}

#[test]
fn reply_null_response_becomes_empty_object() {
    let socket = Socket::with_id("A".to_string());
    let out = socket.reply("ok", JsonValue::Null);
    let expected = JsonValue::Arr(vec![
        JsonValue::Null,
        JsonValue::Null,
        JsonValue::Null,
        jstr("phx_reply"),
        obj(vec![("response", obj(vec![])), ("status", jstr("ok"))]),
    ]);
    assert_eq!(out, expected);
}
