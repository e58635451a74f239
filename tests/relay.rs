use chat_relay::{
    frame_message, read_action, strip_line_terminator, Action, Connection, Delivery, Event, Hub,
    Message, PeerAddr, Phase, DEFAULT_CAPACITY,
};
use tokio::sync::broadcast::error::TryRecvError;
use tokio::sync::broadcast::Receiver;

fn peer(port: u16) -> PeerAddr {
    PeerAddr::V4 { ip: 0x7f00_0001, port }
}

/// The next event a subscription has ready, if any.
fn next_event(rx: &mut Receiver<Message>) -> Option<Event> {
    match rx.try_recv() {
        Ok(m) => Some(Event::Received(m)),
        Err(TryRecvError::Lagged(n)) => Some(Event::Missed(n)),
        Err(TryRecvError::Closed) => Some(Event::HubClosed),
        Err(TryRecvError::Empty) => None,
    }
}

/// Everything a connection writes while draining its subscription.
fn drain(conn: &mut Connection, rx: &mut Receiver<Message>) -> Vec<Vec<u8>> {
    let mut out = Vec::new();
    while let Some(ev) = next_event(rx) {
        if let Action::Write(bytes) = conn.step(ev) {
            out.push(bytes);
        }
    }
    out
}

/// Reads `chunk` at `conn` and publishes what it yields.
fn send_line(conn: &mut Connection, hub: &Hub, chunk: &[u8]) {
    match conn.step(Event::Read(chunk.to_vec())) {
        Action::Publish(m) => {
            hub.publish(m);
        }
        other => panic!("expected a publish, got {:?}", other),
    }
}

#[test]
fn strips_one_terminator() {
    assert_eq!(strip_line_terminator(b"hello\n"), b"hello".to_vec());
    assert_eq!(strip_line_terminator(b"hello\r\n"), b"hello".to_vec());
    assert_eq!(strip_line_terminator(b"hello"), b"hello".to_vec());
    assert_eq!(strip_line_terminator(b"a\n\n"), b"a\n".to_vec());
    assert_eq!(strip_line_terminator(b"\r"), b"\r".to_vec());
    assert_eq!(strip_line_terminator(b""), Vec::<u8>::new());
}

#[test]
fn frames_with_line_feed() {
    assert_eq!(frame_message(b"hello"), b"hello\n".to_vec());
    assert_eq!(frame_message(b""), b"\n".to_vec());
}

#[test]
fn read_action_cases() {
    let p = peer(1);
    assert!(matches!(read_action(p, b"", true), Action::Close));
    assert!(matches!(read_action(p, b"\n", true), Action::Nothing));
    assert!(matches!(read_action(p, b"\r\n", false), Action::Nothing));
    assert!(matches!(read_action(p, b"\xff\n", false), Action::Close));
    match read_action(p, b"hi\r\n", true) {
        Action::Publish(m) => {
            assert_eq!(m.origin, p);
            assert_eq!(m.content, b"hi".to_vec());
        }
        other => panic!("unexpected {:?}", other),
    }
}

#[test]
fn invalid_text_closes_connection() {
    let mut c = Connection::new(peer(1));
    assert!(matches!(c.step(Event::Read(vec![0xff, 0xfe, b'\n'])), Action::Close));
    assert_eq!(c.phase, Phase::Closing);
    c.finish();
    assert_eq!(c.phase, Phase::Closed);
}

#[test]
fn valid_multibyte_text_is_published() {
    let mut c = Connection::new(peer(1));
    match c.step(Event::Read("héllo\n".as_bytes().to_vec())) {
        Action::Publish(m) => assert_eq!(m.content, "héllo".as_bytes().to_vec()),
        other => panic!("unexpected {:?}", other),
    }
    assert!(c.is_active());
}

#[test]
fn empty_read_is_orderly_close() {
    let mut c = Connection::new(peer(1));
    assert!(matches!(c.step(Event::Read(Vec::new())), Action::Close));
    assert_eq!(c.phase, Phase::Closing);
    assert!(matches!(c.step(Event::Read(b"late\n".to_vec())), Action::Nothing));
    assert_eq!(c.phase, Phase::Closing);
}

#[test]
fn failures_close_connection() {
    for ev in [Event::ReadFailed, Event::HubClosed, Event::WriteFailed] {
        let mut c = Connection::new(peer(1));
        assert!(matches!(c.step(ev), Action::Close));
        assert_eq!(c.phase, Phase::Closing);
    }
}

#[test]
fn finish_only_ends_closing() {
    let mut c = Connection::new(peer(1));
    c.finish();
    assert_eq!(c.phase, Phase::Active);
}

#[test]
fn lag_report_keeps_connection() {
    let mut c = Connection::new(peer(1));
    assert!(matches!(c.step(Event::Missed(7)), Action::Nothing));
    assert!(c.is_active());
}

#[test]
fn own_message_is_not_echoed() {
    let mut c = Connection::new(peer(1));
    let m = Message::new(peer(1), b"me".to_vec());
    assert!(matches!(c.step(Event::Received(m)), Action::Nothing));
    let v6 = PeerAddr::V6 { ip: 1, port: 1, flowinfo: 0, scope_id: 0 };
    match c.step(Event::Received(Message::new(v6, b"you".to_vec()))) {
        Action::Write(b) => assert_eq!(b, b"you\n".to_vec()),
        other => panic!("unexpected {:?}", other),
    }
}

#[test]
fn peer_identity_compares_all_fields() {
    assert!(peer(1).same(&peer(1)));
    assert!(!peer(1).same(&peer(2)));
    assert!(!peer(1).same(&PeerAddr::V4 { ip: 0x7f00_0002, port: 1 }));
}

#[test]
fn fan_out_reaches_all_others_only() {
    let hub = Hub::with_default_capacity();
    let ids = [peer(1), peer(2), peer(3), peer(4)];
    let mut conns: Vec<Connection> = ids.iter().map(|p| Connection::new(*p)).collect();
    let mut rxs: Vec<Receiver<Message>> = ids.iter().map(|_| hub.subscribe()).collect();
    send_line(&mut conns[2], &hub, b"ping\n");
    for i in 0..4 {
        let out = drain(&mut conns[i], &mut rxs[i]);
        if i == 2 {
            assert!(out.is_empty());
        } else {
            assert_eq!(out, vec![b"ping\n".to_vec()]);
        }
    }
}

#[test]
fn per_sender_order_is_kept() {
    let hub = Hub::with_default_capacity();
    let (mut a, mut b, mut c) = (Connection::new(peer(1)), Connection::new(peer(2)), Connection::new(peer(3)));
    let (mut ra, mut rb, mut rc) = (hub.subscribe(), hub.subscribe(), hub.subscribe());
    send_line(&mut a, &hub, b"one\n");
    send_line(&mut b, &hub, b"other\n");
    send_line(&mut a, &hub, b"two\n");
    assert!(drain(&mut a, &mut ra).iter().all(|w| w == b"other\n"));
    assert_eq!(drain(&mut b, &mut rb), vec![b"one\n".to_vec(), b"two\n".to_vec()]);
    assert_eq!(
        drain(&mut c, &mut rc),
        vec![b"one\n".to_vec(), b"other\n".to_vec(), b"two\n".to_vec()]
    );
}

#[test]
fn disconnect_leaves_others_relaying() {
    let hub = Hub::with_default_capacity();
    let (mut a, mut b, mut c) = (Connection::new(peer(1)), Connection::new(peer(2)), Connection::new(peer(3)));
    let ra = hub.subscribe();
    let (mut rb, mut rc) = (hub.subscribe(), hub.subscribe());
    assert!(matches!(a.step(Event::ReadFailed), Action::Close));
    a.finish();
    drop(ra);
    send_line(&mut b, &hub, b"still here\n");
    assert_eq!(drain(&mut c, &mut rc), vec![b"still here\n".to_vec()]);
    send_line(&mut c, &hub, b"yes\n");
    assert_eq!(drain(&mut b, &mut rb), vec![b"yes\n".to_vec()]);
    assert!(b.is_active() && c.is_active());
    assert_eq!(a.phase, Phase::Closed);
}

#[test]
fn slow_subscriber_loses_only_its_own() {
    let hub = Hub::new(2);
    let (mut fast, mut slow, mut sender) =
        (Connection::new(peer(1)), Connection::new(peer(2)), Connection::new(peer(3)));
    let (mut rf, mut rs) = (hub.subscribe(), hub.subscribe());
    let mut fast_out = Vec::new();
    for line in [&b"m1\n"[..], b"m2\n", b"m3\n", b"m4\n"] {
        send_line(&mut sender, &hub, line);
        fast_out.extend(drain(&mut fast, &mut rf));
    }
    assert_eq!(fast_out.len(), 4);
    assert_eq!(fast_out[3], b"m4\n".to_vec());
    assert!(matches!(next_event(&mut rs), Some(Event::Missed(2))));
    let slow_out = drain(&mut slow, &mut rs);
    assert_eq!(slow_out, vec![b"m3\n".to_vec(), b"m4\n".to_vec()]);
    assert!(slow.is_active());
}

#[test]
fn hello_reaches_other_client_only() {
    let hub = Hub::with_default_capacity();
    let (mut a, mut b) = (Connection::new(peer(50001)), Connection::new(peer(50002)));
    let (mut ra, mut rb) = (hub.subscribe(), hub.subscribe());
    send_line(&mut a, &hub, b"hello\n");
    assert_eq!(drain(&mut b, &mut rb), vec![b"hello\n".to_vec()]);
    assert!(drain(&mut a, &mut ra).is_empty());
}

#[test]
fn message_before_disconnect_arrives_once() {
    let hub = Hub::with_default_capacity();
    let mut b = Connection::new(peer(2));
    let mut rb = hub.subscribe();
    let mut a = Connection::new(peer(1));
    let ra = hub.subscribe();
    send_line(&mut a, &hub, b"x\n");
    assert!(matches!(a.step(Event::Read(Vec::new())), Action::Close));
    a.finish();
    drop(ra);
    assert_eq!(drain(&mut b, &mut rb), vec![b"x\n".to_vec()]);
    assert!(drain(&mut b, &mut rb).is_empty());
    assert!(b.is_active());
}

#[test]
fn publish_without_subscribers_is_no_error() {
    let hub = Hub::new(DEFAULT_CAPACITY);
    let stray = Message::new(peer(9), b"stray".to_vec());
    assert_eq!(hub.publish(stray), Delivery::NoSubscribers);
    let mut late = hub.subscribe();
    assert!(next_event(&mut late).is_none());
}

#[test]
fn publish_counts_subscribers() {
    let hub = Hub::new(4);
    let _r1 = hub.subscribe();
    let _r2 = hub.subscribe();
    assert_eq!(hub.publish(Message::new(peer(9), b"x".to_vec())), Delivery::Fanned(2));
}
