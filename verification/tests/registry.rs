use futures_channel::mpsc::{unbounded, UnboundedReceiver};
use tokio_tungstenite::tungstenite::protocol::Message;
use ws_relay::ws::registry::Registry;
use ws_relay::ws::ws_error::WsError;

fn drain(rx: &mut UnboundedReceiver<Message>) -> Vec<Message> {
    let mut got = Vec::new();
    while let Ok(msg) = rx.try_recv() {
        got.push(msg);
    }
    got
}

fn text(s: &str) -> Message {
    Message::text(s)
}

#[test]
fn new_registry_is_empty() {
    let reg = Registry::new();
    assert_eq!(reg.len(), 0);
    assert!(!reg.contains(0));
    assert!(!reg.contains(7));
}

#[test]
fn register_enters_the_connection() {
    let mut reg = Registry::new();
    let (tx, _rx) = unbounded();
    reg.register(7, tx);
    assert_eq!(reg.len(), 1);
    assert!(reg.contains(7));
    assert!(!reg.contains(8));
}

#[test]
fn register_twice_keeps_the_last_queue() {
    let mut reg = Registry::new();
    let (old_tx, mut old_rx) = unbounded();
    let (new_tx, mut new_rx) = unbounded();
    reg.register(1, old_tx);
    reg.register(1, new_tx);
    assert_eq!(reg.len(), 1);
    assert_eq!(reg.send_to(1, &text("m")), Ok(()));
    assert_eq!(drain(&mut new_rx), vec![text("m")]);
    assert_eq!(drain(&mut old_rx), Vec::<Message>::new());
}

#[test]
fn deregister_takes_the_connection_out() {
    let mut reg = Registry::new();
    let (a, _ra) = unbounded();
    let (b, _rb) = unbounded();
    reg.register(1, a);
    reg.register(2, b);
    reg.deregister(1);
    assert_eq!(reg.len(), 1);
    assert!(!reg.contains(1));
    assert!(reg.contains(2));
}

#[test]
fn deregister_of_an_absent_id_changes_nothing() {
    let mut reg = Registry::new();
    reg.deregister(5);
    assert_eq!(reg.len(), 0);
    let (a, mut ra) = unbounded();
    reg.register(1, a);
    reg.deregister(5);
    assert_eq!(reg.len(), 1);
    assert!(reg.contains(1));
    reg.deregister(1);
    reg.deregister(1);
    assert_eq!(reg.len(), 0);
    assert!(!reg.contains(1));
    assert_eq!(drain(&mut ra), Vec::<Message>::new());
}

#[test]
fn deregister_lets_the_queue_end() {
    let mut reg = Registry::new();
    let (a, mut ra) = unbounded::<Message>();
    reg.register(1, a);
    assert_eq!(reg.send_to(1, &text("last")), Ok(()));
    reg.deregister(1);
    assert_eq!(ra.try_recv().ok(), Some(text("last")));
    assert!(ra.try_recv().is_err());
}

#[test]
fn send_to_an_absent_id_is_client_not_found() {
    let mut reg = Registry::new();
    assert_eq!(reg.send_to(3, &text("x")), Err(WsError::ClientNotFound));
    let (a, mut ra) = unbounded();
    reg.register(1, a);
    assert_eq!(reg.send_to(3, &text("x")), Err(WsError::ClientNotFound));
    assert_eq!(drain(&mut ra), Vec::<Message>::new());
}

#[test]
fn send_to_reaches_that_connection_only_and_in_order() {
    let mut reg = Registry::new();
    let (a, mut ra) = unbounded();
    let (b, mut rb) = unbounded();
    reg.register(1, a);
    reg.register(2, b);
    assert_eq!(reg.send_to(1, &text("one")), Ok(()));
    assert_eq!(reg.send_to(1, &text("two")), Ok(()));
    assert_eq!(reg.send_to(1, &Message::binary(vec![3u8])), Ok(()));
    assert_eq!(
        drain(&mut ra),
        vec![text("one"), text("two"), Message::binary(vec![3u8])]
    );
    assert_eq!(drain(&mut rb), Vec::<Message>::new());
}

#[test]
fn send_to_a_closed_queue_is_send_error() {
    let mut reg = Registry::new();
    let (a, ra) = unbounded();
    reg.register(4, a);
    drop(ra);
    assert_eq!(reg.send_to(4, &text("x")), Err(WsError::SendError(4)));
    assert!(reg.contains(4));
}

#[test]
fn broadcast_to_all_reaches_everyone() {
    let mut reg = Registry::new();
    let (a, mut ra) = unbounded();
    let (b, mut rb) = unbounded();
    let (c, mut rc) = unbounded();
    reg.register(1, a);
    reg.register(2, b);
    reg.register(3, c);
    assert_eq!(reg.broadcast(None, &text("all")), Vec::<u64>::new());
    assert_eq!(drain(&mut ra), vec![text("all")]);
    assert_eq!(drain(&mut rb), vec![text("all")]);
    assert_eq!(drain(&mut rc), vec![text("all")]);
    assert_eq!(reg.len(), 3);
}

#[test]
fn broadcast_spares_the_excepted_connection() {
    let mut reg = Registry::new();
    let (a, mut ra) = unbounded();
    let (b, mut rb) = unbounded();
    let (c, mut rc) = unbounded();
    reg.register(1, a);
    reg.register(2, b);
    reg.register(3, c);
    assert_eq!(reg.broadcast(Some(2), &text("others")), Vec::<u64>::new());
    assert_eq!(drain(&mut ra), vec![text("others")]);
    assert_eq!(drain(&mut rb), Vec::<Message>::new());
    assert_eq!(drain(&mut rc), vec![text("others")]);
}

#[test]
fn broadcast_except_an_absent_id_reaches_everyone() {
    let mut reg = Registry::new();
    let (a, mut ra) = unbounded();
    reg.register(1, a);
    assert_eq!(reg.broadcast(Some(9), &text("m")), Vec::<u64>::new());
    assert_eq!(drain(&mut ra), vec![text("m")]);
}

#[test]
fn broadcast_in_an_empty_registry_does_nothing() {
    let mut reg = Registry::new();
    assert_eq!(reg.broadcast(None, &text("m")), Vec::<u64>::new());
    assert_eq!(reg.broadcast(Some(1), &text("m")), Vec::<u64>::new());
}

#[test]
fn broadcast_reports_each_closed_queue_and_reaches_the_rest() {
    let mut reg = Registry::new();
    let (a, ra) = unbounded();
    let (b, mut rb) = unbounded();
    let (c, rc) = unbounded();
    let (d, mut rd) = unbounded();
    reg.register(1, a);
    reg.register(2, b);
    reg.register(3, c);
    reg.register(4, d);
    drop(ra);
    drop(rc);
    let mut failed = reg.broadcast(None, &text("m"));
    failed.sort();
    assert_eq!(failed, vec![1, 3]);
    assert_eq!(drain(&mut rb), vec![text("m")]);
    assert_eq!(drain(&mut rd), vec![text("m")]);
    assert_eq!(reg.len(), 4);
    assert_eq!(reg.broadcast(Some(1), &text("n")), vec![3]);
    assert_eq!(drain(&mut rb), vec![text("n")]);
    assert_eq!(drain(&mut rd), vec![text("n")]);
}

#[test]
fn broadcasts_arrive_in_the_order_sent() {
    let mut reg = Registry::new();
    let (a, mut ra) = unbounded();
    let (b, mut rb) = unbounded();
    reg.register(1, a);
    reg.register(2, b);
    reg.broadcast(None, &text("1"));
    assert_eq!(reg.send_to(2, &text("2")), Ok(()));
    reg.broadcast(Some(1), &text("3"));
    reg.broadcast(None, &text("4"));
    assert_eq!(drain(&mut ra), vec![text("1"), text("4")]);
    assert_eq!(
        drain(&mut rb),
        vec![text("1"), text("2"), text("3"), text("4")]
    );
}
