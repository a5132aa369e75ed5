use futures_channel::mpsc::{unbounded, UnboundedReceiver};
use std::collections::HashMap;
use tokio_tungstenite::tungstenite::protocol::Message;
use ws_relay::benchmark::{answer, decimal_text, handle_message, Counters, Payload, StoreStep};
use ws_relay::ws::event::{Event, EventMap};
use ws_relay::ws::registry::Registry;
use ws_relay::ws::socket::Socket;
use ws_relay::ws::ws_error::WsError;
use ws_relay::ws::session::Session;

fn delivered(rx: &mut UnboundedReceiver<Message>) -> Vec<Message> {
    let mut got = Vec::new();
    while let Ok(msg) = rx.try_recv() {
        got.push(msg);
    }
    got
}

fn put(key: &str, current: i32, to: i32) -> StoreStep {
    StoreStep::Put {
        key: key.to_string(),
        counters: Counters { current, to },
    }
}

#[test]
fn redis_key_is_the_id() {
    assert_eq!(Payload::redis_key("rust"), "rust");
    assert_eq!(Payload::redis_key(""), "");
    assert_eq!(Payload::redis_key("a b:c"), "a b:c");
}

#[test]
fn from_store_pairs_the_key_with_the_counters() {
    let p = Payload::from_store("rust", Counters { current: 8, to: 7 });
    assert_eq!(
        p,
        Payload {
            id: "rust".to_string(),
            counters: Counters { current: 8, to: 7 }
        }
    );
}

#[test]
fn decimal_text_writes_integers_in_decimal() {
    assert_eq!(decimal_text(0), "0");
    assert_eq!(decimal_text(1), "1");
    assert_eq!(decimal_text(9), "9");
    assert_eq!(decimal_text(10), "10");
    assert_eq!(decimal_text(42), "42");
    assert_eq!(decimal_text(100), "100");
    assert_eq!(decimal_text(1234567890), "1234567890");
    assert_eq!(decimal_text(-1), "-1");
    assert_eq!(decimal_text(-10), "-10");
    assert_eq!(decimal_text(-907), "-907");
    assert_eq!(decimal_text(i32::MAX), "2147483647");
    assert_eq!(decimal_text(i32::MIN), "-2147483648");
}

#[test]
fn decimal_text_agrees_with_the_standard_library() {
    let mut i: i32 = -70000;
    while i <= 70000 {
        assert_eq!(decimal_text(i), i.to_string());
        i += 7;
    }
}

#[test]
fn to_json_writes_id_then_counters() {
    let p = Payload {
        id: "x".to_string(),
        counters: Counters { current: 1, to: 2 },
    };
    assert_eq!(p.to_json(), r#"{"id":"x","counters":{"current":1,"to":2}}"#);
}

#[test]
fn to_json_escapes_the_id_and_signs_the_numbers() {
    let p = Payload {
        id: "a\"b\\c\n".to_string(),
        counters: Counters { current: -15, to: 0 },
    };
    assert_eq!(
        p.to_json(),
        r#"{"id":"a\"b\\c\n","counters":{"current":-15,"to":0}}"#
    );
}

#[test]
fn from_json_reads_what_to_json_wrote() {
    let p = Payload {
        id: "k\u{e9}y \"1\"".to_string(),
        counters: Counters { current: i32::MIN, to: i32::MAX },
    };
    let doc: serde_json::Value = serde_json::from_str(&p.to_json()).unwrap();
    assert_eq!(Payload::from_json(&doc), Some(p));
}

#[test]
fn counters_from_json_needs_both_numbers() {
    let doc: serde_json::Value = serde_json::from_str(r#"{"current":3,"to":-4,"x":1}"#).unwrap();
    assert_eq!(Counters::from_json(&doc), Some(Counters { current: 3, to: -4 }));
    let doc: serde_json::Value = serde_json::from_str(r#"{"current":3}"#).unwrap();
    assert_eq!(Counters::from_json(&doc), None);
    let doc: serde_json::Value = serde_json::from_str(r#"{"to":3}"#).unwrap();
    assert_eq!(Counters::from_json(&doc), None);
    let doc: serde_json::Value = serde_json::from_str(r#"[3,4]"#).unwrap();
    assert_eq!(Counters::from_json(&doc), None);
}

#[test]
fn handle_message_asks_to_store_a_payload() {
    assert_eq!(
        handle_message(r#"{"id":"x","counters":{"current":1,"to":2}}"#),
        put("x", 1, 2)
    );
    assert_eq!(
        handle_message(r#" {"counters": {"to": -2, "current": 2147483647}, "id": "", "more": true} "#),
        put("", 2147483647, -2)
    );
}

#[test]
fn handle_message_drops_what_is_malformed() {
    let malformed = [
        "",
        "x",
        "null",
        "[]",
        r#"{"id":"x"}"#,
        r#"{"counters":{"current":1,"to":2}}"#,
        r#"{"id":5,"counters":{"current":1,"to":2}}"#,
        r#"{"id":"x","counters":{"current":1}}"#,
        r#"{"id":"x","counters":{"to":2}}"#,
        r#"{"id":"x","counters":[1,2]}"#,
        r#"{"id":"x","counters":{"current":"1","to":2}}"#,
        r#"{"id":"x","counters":{"current":1.5,"to":2}}"#,
        r#"{"id":"x","counters":{"current":1.0,"to":2}}"#,
        r#"{"id":"x","counters":{"current":2147483648,"to":2}}"#,
        r#"{"id":"x","counters":{"current":1,"to":-2147483649}}"#,
        r#"{"id":"x","counters":{"current":1,"to":18446744073709551615}}"#,
        r#"{"id":"x","counters":{"current":1,"to":2}"#,
    ];
    for message in malformed {
        assert_eq!(handle_message(message), StoreStep::Dropped, "{}", message);
    }
}

#[test]
fn answer_sends_the_payload_to_the_origin_alone() {
    let mut clients = Registry::new();
    let (a, mut ra) = unbounded();
    let (b, mut rb) = unbounded();
    clients.register(1, a);
    clients.register(2, b);
    let res = answer(
        &Socket::new(1),
        &mut clients,
        "x",
        Some(Counters { current: 1, to: 2 }),
    );
    assert_eq!(res, Ok(()));
    assert_eq!(
        delivered(&mut ra),
        vec![Message::text(r#"{"id":"x","counters":{"current":1,"to":2}}"#)]
    );
    assert_eq!(delivered(&mut rb), Vec::<Message>::new());
}

#[test]
fn answer_sends_nothing_where_the_store_gave_nothing() {
    let mut clients = Registry::new();
    let (a, mut ra) = unbounded();
    clients.register(1, a);
    assert_eq!(answer(&Socket::new(1), &mut clients, "x", None), Ok(()));
    assert_eq!(delivered(&mut ra), Vec::<Message>::new());
}

#[test]
fn answer_to_a_vanished_origin_is_client_not_found() {
    let mut clients = Registry::new();
    let (b, mut rb) = unbounded();
    clients.register(2, b);
    assert_eq!(
        answer(&Socket::new(1), &mut clients, "x", Some(Counters { current: 1, to: 2 })),
        Err(WsError::ClientNotFound)
    );
    assert_eq!(delivered(&mut rb), Vec::<Message>::new());
}

#[test]
fn benchmark_stores_and_answers_the_origin() {
    let events = EventMap::build(vec![Event::new("echo", 0u8), Event::new("benchmark", 1u8)]);
    let mut clients = Registry::new();
    let mut one = Session::new(1);
    let mut pump_one = one.register(&mut clients).unwrap();
    one.start_reading();
    let mut two = Session::new(2);
    let mut pump_two = two.register(&mut clients).unwrap();
    two.start_reading();
    let mut store: HashMap<String, Counters> = HashMap::new();

    let frame = Message::text(
        r#"{"path":"benchmark","payload":{"id":"x","counters":{"current":1,"to":2}}}"#,
    );
    let call = one.on_frame(&events, &frame).ok().unwrap();
    assert_eq!(*call.action, 1);
    match handle_message(&call.payload) {
        StoreStep::Put { key, counters } => {
            store.insert(key.clone(), counters);
            let fetched = store.get(&key).copied();
            assert_eq!(answer(&call.socket, &mut clients, &key, fetched), Ok(()));
        }
        StoreStep::Dropped => panic!("the payload was dropped"),
    }

    assert_eq!(store.len(), 1);
    assert_eq!(store.get("x"), Some(&Counters { current: 1, to: 2 }));
    assert_eq!(
        delivered(&mut pump_one),
        vec![Message::text(r#"{"id":"x","counters":{"current":1,"to":2}}"#)]
    );
    assert_eq!(delivered(&mut pump_two), Vec::<Message>::new());
}

#[test]
fn benchmark_takes_the_payload_as_a_string_too() {
    let events = EventMap::build(vec![Event::new("benchmark", 1u8)]);
    let mut clients = Registry::new();
    let mut one = Session::new(1);
    let _pump = one.register(&mut clients).unwrap();
    one.start_reading();
    let frame = Message::text(
        r#"{"path":"benchmark","payload":"{\"id\":\"x\",\"counters\":{\"current\":1,\"to\":2}}"}"#,
    );
    let call = one.on_frame(&events, &frame).ok().unwrap();
    assert_eq!(handle_message(&call.payload), put("x", 1, 2));
}
