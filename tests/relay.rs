use tokio::sync::broadcast;
use tokio::sync::broadcast::error::TryRecvError;
use whiteboard::connection::{
    Action, ClientAction, ClientLink, Connection, Delivery, Inbound, LinkStatus, Received,
};
use whiteboard::event::WhiteboardEvent;

fn delivery(r: Result<String, TryRecvError>) -> Delivery {
    match r {
        Ok(f) => Delivery::Frame(f),
        Err(TryRecvError::Lagged(n)) => Delivery::Lagged(n),
        Err(_) => Delivery::Closed,
    }
}

fn publish(tx: &broadcast::Sender<String>, c: &mut Connection, frame: &str) {
    match c.inbound(Inbound::Text(frame.to_string())) {
        Action::Publish(f) => {
            let _ = tx.send(f);
        }
        _ => panic!("text frame was not published"),
    }
}

fn sent(a: Action) -> String {
    match a {
        Action::Send(f) => f,
        _ => panic!("frame was not sent"),
    }
}

#[test]
fn publisher_receives_its_own_frame() {
    let (tx, _keep) = broadcast::channel::<String>(100);
    let mut rx = tx.subscribe();
    let mut c = Connection::new();
    publish(&tx, &mut c, "{\"type\":\"Zoom\",\"factor\":1.5}");
    let f = sent(c.outbound(delivery(rx.try_recv())));
    assert_eq!(f, "{\"type\":\"Zoom\",\"factor\":1.5}");
}

#[test]
fn three_subscribers_get_one_copy_each() {
    let (tx, _keep) = broadcast::channel::<String>(100);
    let mut subs: Vec<(broadcast::Receiver<String>, Connection)> =
        (0..3).map(|_| (tx.subscribe(), Connection::new())).collect();
    let mut origin = Connection::new();
    publish(&tx, &mut origin, "frame-1");
    for (rx, c) in subs.iter_mut() {
        assert_eq!(sent(c.outbound(delivery(rx.try_recv()))), "frame-1");
        assert!(matches!(rx.try_recv(), Err(TryRecvError::Empty)));
    }
}

#[test]
fn lagging_subscriber_is_torn_down_others_continue() {
    let (tx, _keep) = broadcast::channel::<String>(100);
    let mut slow = tx.subscribe();
    let mut fast = tx.subscribe();
    let mut slow_conn = Connection::new();
    let mut fast_conn = Connection::new();
    let mut origin = Connection::new();
    for i in 0..300 {
        publish(&tx, &mut origin, &format!("f{}", i));
        let got = sent(fast_conn.outbound(delivery(fast.try_recv())));
        assert_eq!(got, format!("f{}", i));
    }
    let d = delivery(slow.try_recv());
    assert!(matches!(d, Delivery::Lagged(_)));
    assert!(matches!(slow_conn.outbound(d), Action::TearDown));
    assert!(!slow_conn.open);
    // once down, nothing more is forwarded or published
    assert!(matches!(slow_conn.outbound(Delivery::Frame("x".to_string())), Action::TearDown));
    assert!(matches!(slow_conn.inbound(Inbound::Text("x".to_string())), Action::TearDown));
    assert!(fast_conn.open);
}

#[test]
fn connection_ends_on_read_end_or_write_failure() {
    let mut a = Connection::new();
    assert!(matches!(a.inbound(Inbound::Ended), Action::TearDown));
    assert!(!a.open);
    let mut b = Connection::new();
    assert!(matches!(b.inbound(Inbound::Other), Action::TearDown));
    let mut c = Connection::new();
    assert!(matches!(c.write_failed(), Action::TearDown));
    assert!(!c.open);
    let mut d = Connection::new();
    assert!(matches!(d.outbound(Delivery::Closed), Action::TearDown));
}

#[test]
fn malformed_frame_is_skipped_and_reading_goes_on() {
    let mut link = ClientLink::new();
    assert_eq!(link.status, LinkStatus::Connecting);
    link.opened(true);
    assert_eq!(link.status, LinkStatus::Connected);
    assert!(matches!(link.receive(Received::Text(None)), ClientAction::Ignore));
    assert!(matches!(link.receive(Received::Binary), ClientAction::Ignore));
    match link.receive(Received::Text(Some(WhiteboardEvent::Pan { dx: 1, dy: 2 }))) {
        ClientAction::Apply(WhiteboardEvent::Pan { dx, dy }) => assert_eq!((dx, dy), (1, 2)),
        _ => panic!("valid frame was not applied"),
    }
    assert_eq!(link.status, LinkStatus::Connected);
    assert!(matches!(link.receive(Received::Error), ClientAction::Stop));
    assert_eq!(link.status, LinkStatus::Disconnected);
}

#[test]
fn failed_open_is_reported() {
    let mut link = ClientLink::new();
    link.opened(false);
    assert_eq!(link.status, LinkStatus::Failed);
}
