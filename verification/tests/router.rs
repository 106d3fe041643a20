use event_router::on_connect;
use event_router::standard_table;
use event_router::AckResponse;
use event_router::AckSlot;
use event_router::Connection;
use event_router::DispatchNote;
use event_router::Handler;
use event_router::InboundMessage;
use event_router::RouterError;
use event_router::Value;

fn inbound(name: &str, payload: Value, binary: Vec<Vec<u8>>, ack_requested: bool) -> InboundMessage {
    InboundMessage { event_name: name.to_string(), payload, binary, ack_requested }
}

fn player_fixture() -> Value {
    Value::Obj(vec![
        ("name".to_string(), Value::Text("Player1".to_string())),
        ("level".to_string(), Value::Int(5)),
        ("score".to_string(), Value::Int(1000)),
    ])
}

#[test]
fn message_echoes_object_payload() {
    let (conn, emits) = on_connect("/".to_string(), 1, None);
    assert_eq!(emits.len(), 0);
    let payload = Value::Obj(vec![("x".to_string(), Value::Int(1))]);
    let r = conn.dispatch(inbound("message", payload, vec![], false));
    assert_eq!(r.emits.len(), 1);
    assert_eq!(r.emits[0].event_name, "message-back");
    assert_eq!(r.emits[0].payload, Value::Obj(vec![("x".to_string(), Value::Int(1))]));
    assert!(r.emits[0].binary.is_empty());
    assert!(r.ack.is_none());
    assert_eq!(r.note, DispatchNote::Delivered);
}

#[test]
fn message_echo_preserves_binary_attachments() {
    let (conn, _) = on_connect("/".to_string(), 2, None);
    let bin = vec![vec![1u8, 2, 3], vec![4u8]];
    let r = conn.dispatch(inbound("message", Value::Text("hello".to_string()), bin, false));
    assert_eq!(r.emits.len(), 1);
    assert_eq!(r.emits[0].binary, vec![vec![1u8, 2, 3], vec![4u8]]);
    assert_eq!(r.emits[0].payload, Value::Text("hello".to_string()));
    assert!(r.ack.is_none());
}

#[test]
fn ack_echo_returns_ping_once() {
    let (conn, _) = on_connect("/".to_string(), 3, None);
    let r = conn.dispatch(inbound("message-with-ack", Value::Text("ping".to_string()), vec![], true));
    assert_eq!(r.emits.len(), 0);
    assert_eq!(
        r.ack,
        Some(AckResponse { payload: Value::Text("ping".to_string()), binary: vec![] })
    );
    assert_eq!(r.note, DispatchNote::Delivered);
}

#[test]
fn ack_echo_preserves_binary_attachments() {
    let (conn, _) = on_connect("/".to_string(), 4, None);
    let bin = vec![vec![9u8, 8]];
    let r = conn.dispatch(inbound("message-with-ack", Value::Null, bin, true));
    assert_eq!(r.emits.len(), 0);
    assert_eq!(r.ack, Some(AckResponse { payload: Value::Null, binary: vec![vec![9u8, 8]] }));
}

#[test]
fn unrequested_ack_is_suppressed() {
    let (conn, _) = on_connect("/".to_string(), 5, None);
    let r = conn.dispatch(inbound("message-with-ack", Value::Bool(true), vec![], false));
    assert_eq!(r.emits.len(), 0);
    assert!(r.ack.is_none());
    assert_eq!(r.note, DispatchNote::AckSuppressed);
}

#[test]
fn unknown_event_is_dropped() {
    let (conn, _) = on_connect("/".to_string(), 6, None);
    let r = conn.dispatch(inbound("no-such-event", Value::Int(7), vec![vec![0u8]], true));
    assert_eq!(r.emits.len(), 0);
    assert!(r.ack.is_none());
    assert_eq!(r.note, DispatchNote::UnknownEvent);
}

#[test]
fn player_data_returns_fixture_record() {
    let (conn, _) = on_connect("/".to_string(), 7, None);
    let r = conn.dispatch(inbound("get-player-data", Value::Text("ignored".to_string()), vec![], false));
    assert_eq!(r.emits.len(), 1);
    assert_eq!(r.emits[0].event_name, "player-data");
    assert_eq!(r.emits[0].payload, player_fixture());
    assert!(r.emits[0].binary.is_empty());
    assert!(r.ack.is_none());
    assert_eq!(r.note, DispatchNote::Delivered);
}

#[test]
fn second_ack_is_rejected_and_first_kept() {
    let mut slot = AckSlot::new(true);
    let first = slot.send(Value::Text("first".to_string()), vec![]);
    assert_eq!(first, Ok(()));
    let second = slot.send(Value::Text("second".to_string()), vec![vec![1u8]]);
    assert_eq!(second, Err(RouterError::ProtocolViolation));
    assert_eq!(
        slot.into_response(),
        Some(AckResponse { payload: Value::Text("first".to_string()), binary: vec![] })
    );
}

#[test]
fn ack_without_request_is_rejected() {
    let mut slot = AckSlot::new(false);
    let r = slot.send(Value::Null, vec![]);
    assert_eq!(r, Err(RouterError::ProtocolViolation));
    assert_eq!(slot.into_response(), None);
}

#[test]
fn duplicate_registration_fails_with_configuration_error() {
    let mut table = standard_table();
    let r = table.register("message".to_string(), Handler::EchoWithAck);
    assert_eq!(r, Err(RouterError::ConfigurationError));
    assert_eq!(table.len(), 3);
}

#[test]
fn registration_of_fresh_name_succeeds() {
    let mut table = standard_table();
    let r = table.register(
        "ping".to_string(),
        Handler::Echo { reply_event: "pong".to_string() },
    );
    assert_eq!(r, Ok(()));
    assert_eq!(table.len(), 4);
}

#[test]
fn custom_echo_handler_dispatches_under_its_reply_event() {
    let mut table = standard_table();
    table
        .register("ping".to_string(), Handler::Echo { reply_event: "pong".to_string() })
        .unwrap();
    let mut conn = Connection::new("/game".to_string(), 8, table);
    conn.establish();
    let r = conn.dispatch(inbound("ping", Value::Text("hi".to_string()), vec![], false));
    assert_eq!(r.emits.len(), 1);
    assert_eq!(r.emits[0].event_name, "pong");
    assert_eq!(r.emits[0].payload, Value::Text("hi".to_string()));
}

#[test]
fn on_connect_emits_auth_payload_when_supplied() {
    let (conn, emits) = on_connect("/chat".to_string(), 9, Some(Value::Text("token".to_string())));
    assert_eq!(emits.len(), 1);
    assert_eq!(emits[0].event_name, "auth");
    assert_eq!(emits[0].payload, Value::Text("token".to_string()));
    assert!(emits[0].binary.is_empty());
    assert_eq!(conn.namespace, "/chat");
    assert_eq!(conn.id, 9);
}

#[test]
fn dispatch_after_disconnect_is_discarded() {
    let (mut conn, _) = on_connect("/".to_string(), 10, None);
    conn.disconnect();
    let r = conn.dispatch(inbound("message", Value::Int(1), vec![], false));
    assert_eq!(r.emits.len(), 0);
    assert!(r.ack.is_none());
    assert_eq!(r.note, DispatchNote::ConnectionClosed);
}

#[test]
fn dispatch_before_establish_is_discarded() {
    let conn = Connection::new("/".to_string(), 11, standard_table());
    let r = conn.dispatch(inbound("message", Value::Int(1), vec![], false));
    assert_eq!(r.emits.len(), 0);
    assert!(r.ack.is_none());
    assert_eq!(r.note, DispatchNote::ConnectionClosed);
}

#[test]
fn lookup_finds_registered_handler() {
    let table = standard_table();
    match table.lookup(&"message".to_string()) {
        Some(Handler::Echo { reply_event }) => assert_eq!(reply_event, "message-back"),
        _ => panic!("expected the echo handler"),
    }
    assert!(table.lookup(&"absent".to_string()).is_none());
}
