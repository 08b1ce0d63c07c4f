use phx_channels::bus::{BroadcastBus, FanoutMsg};
use phx_channels::endpoint::Endpoint;
use phx_channels::json::JsonValue;
use phx_channels::socket::Socket;
use phx_channels::task::writer_step;

fn jstr(x: &str) -> JsonValue {
    JsonValue::Str(x.to_string())
}

fn obj(fields: Vec<(&str, JsonValue)>) -> JsonValue {
    JsonValue::Obj(fields.into_iter().map(|(k, v)| (k.to_string(), v)).collect())
}

fn frame(
    join_ref: Option<&str>,
    msg_ref: Option<&str>,
    topic: Option<&str>,
    event: &str,
    payload: JsonValue,
) -> JsonValue {
    let slot = |o: Option<&str>| match o {
        Some(s) => jstr(s),
        None => JsonValue::Null,
    };
    JsonValue::Arr(vec![slot(join_ref), slot(msg_ref), slot(topic), jstr(event), payload])
}

#[test]
fn broadcast_from_excludes_publisher() {
    let mut a = Socket::with_id("A".to_string());
    let b = Socket::with_id("B".to_string());
    a.from_message(&frame(Some("1"), Some("1"), Some("room:1"), "phx_join", obj(vec![])))
        .unwrap();

    let mut bus = BroadcastBus::new(16);
    let mut cursor_a = bus.subscribe();
    let mut cursor_b = bus.subscribe();

    let msg = a.boardcast_from("new_msg", obj(vec![("text", jstr("hi"))]));
    bus.publish(msg);

    let got_b = bus.recv(&mut cursor_b).expect("b should see the fanout");
    let forwarded = writer_step(&b, got_b).expect("b should forward it");
    let expected = JsonValue::Arr(vec![
        jstr("1"),
        JsonValue::Null,
        jstr("room:1"),
        jstr("new_msg"),
        obj(vec![("text", jstr("hi"))]),
    ]);
    assert_eq!(forwarded, &expected);

    let got_a = bus.recv(&mut cursor_a).expect("a sees the fanout on the bus");
    assert_eq!(writer_step(&a, got_a), None);
}

#[test]
fn broadcast_reaches_publisher_too() {
    let mut a = Socket::with_id("A".to_string());
    a.from_message(&frame(None, None, Some("room:1"), "phx_join", obj(vec![])))
        .unwrap();
    let msg = a.boardcast("news", jstr("x"));
    assert_eq!(msg.from, None);
    assert_eq!(msg.action, "boardcast".to_string());
    assert_eq!(msg.topic, "room:1".to_string());
    assert!(writer_step(&a, &msg).is_some());
}

#[test]
fn broadcast_without_topic_uses_empty_topic() {
    let a = Socket::with_id("A".to_string());
    let msg = a.boardcast("news", jstr("x"));
    assert_eq!(msg.topic, "".to_string());
}

#[test]
fn unknown_action_is_not_forwarded() {
    let a = Socket::with_id("A".to_string());
    let msg = FanoutMsg {
        topic: "room:1".to_string(),
        action: "gossip".to_string(),
        from: None,
        payload: jstr("x"),
    };
    assert_eq!(writer_step(&a, &msg), None);
}

#[test]
fn endpoint_broadcast_targets_explicit_topic() {
    let a = Socket::with_id("A".to_string());
    let msg = Endpoint::boardcast(&a, "lobby", "news", jstr("x"));
    assert_eq!(msg.topic, "lobby".to_string());
    assert_eq!(msg.action, "boardcast".to_string());
    assert_eq!(msg.from, None);
    let expected = JsonValue::Arr(vec![
        JsonValue::Null,
        JsonValue::Null,
        jstr("lobby"),
        jstr("news"),
        jstr("x"),
    ]);
    assert_eq!(msg.payload, expected);
}

#[test]
fn endpoint_broadcast_from_carries_origin() {
    let a = Socket::with_id("A".to_string());
    let msg = Endpoint::boardcast_from(&a, "lobby", "news", jstr("x"));
    assert_eq!(msg.from, Some("A".to_string()));
    assert_eq!(msg.action, "boardcast_from".to_string());
    assert_eq!(msg.topic, "lobby".to_string());
    assert_eq!(writer_step(&a, &msg), None);
    let b = Socket::with_id("B".to_string());
    assert!(writer_step(&b, &msg).is_some());
}

#[test]
fn bus_subscription_sees_no_earlier_messages() {
    let a = Socket::with_id("A".to_string());
    let mut bus = BroadcastBus::new(16);
    bus.publish(a.boardcast("early", jstr("x")));
    let mut cursor = bus.subscribe();
    assert!(bus.recv(&mut cursor).is_none());
    bus.publish(a.boardcast("later", jstr("y")));
    assert!(bus.recv(&mut cursor).is_some());
    assert!(bus.recv(&mut cursor).is_none());
}

#[test]
fn bus_delivers_in_publish_order() {
    let a = Socket::with_id("A".to_string());
    let mut bus = BroadcastBus::new(16);
    let mut cursor = bus.subscribe();
    bus.publish(a.boardcast("first", jstr("1")));
    bus.publish(a.boardcast("second", jstr("2")));
    let first = bus.recv(&mut cursor).unwrap();
    assert_eq!(first.payload, JsonValue::Arr(vec![
        JsonValue::Null,
        JsonValue::Null,
        JsonValue::Null,
        jstr("first"),
        jstr("1"),
    ]));
    let second = bus.recv(&mut cursor).unwrap();
    assert_eq!(second.payload, JsonValue::Arr(vec![
        JsonValue::Null,
        JsonValue::Null,
        JsonValue::Null,
        jstr("second"),
        jstr("2"),
    ]));
}

#[test]
fn slow_reader_loses_oldest_messages() {
    let a = Socket::with_id("A".to_string());
    let mut bus = BroadcastBus::new(2);
    let mut cursor = bus.subscribe();
    bus.publish(a.boardcast("one", jstr("1")));
    bus.publish(a.boardcast("two", jstr("2")));
    bus.publish(a.boardcast("three", jstr("3")));
    let got = bus.recv(&mut cursor).unwrap();
    assert_eq!(got.payload, JsonValue::Arr(vec![
        JsonValue::Null,
        JsonValue::Null,
        JsonValue::Null,
        jstr("two"),
        jstr("2"),
    ]));
    let got = bus.recv(&mut cursor).unwrap();
    assert_eq!(got.payload, JsonValue::Arr(vec![
        JsonValue::Null,
        JsonValue::Null,
        JsonValue::Null,
        jstr("three"),
        jstr("3"),
    ]));
    assert!(bus.recv(&mut cursor).is_none());
}

#[test]
fn default_bus_has_documented_capacity() {
    let bus = BroadcastBus::default();
    assert_eq!(bus.capacity, 1024);
    assert_eq!(bus.history.len(), 0);
}
