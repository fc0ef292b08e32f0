use rethink::ast::R;
use rethink::net::{handshake_request, ConnectAction, ConnectEvent, Connection};

#[test]
fn new_connection_is_closed() {
    let c: Connection<u8> = Connection::new();
    assert_eq!(c.token, 0);
    assert!(c.stream.is_none());
}

#[test]
fn connect_begins_by_opening_the_address() {
    let mut c: Connection<u8> = Connection::new();
    match c.connect(ConnectEvent::Begin) {
        ConnectAction::Open(addr) => assert_eq!(addr, "127.0.0.1:28015"),
        _ => panic!("expected Open"),
    }
}

#[test]
fn connect_keeps_the_opened_stream_and_shakes_hands() {
    let mut c: Connection<u8> = Connection::new();
    match c.connect(ConnectEvent::Opened(Some(9))) {
        ConnectAction::Handshake(bytes) => assert_eq!(bytes, handshake_request()),
        _ => panic!("expected Handshake"),
    }
    assert_eq!(c.stream, Some(9));
    assert_eq!(c.token, 0);
}

#[test]
fn connect_fails_without_a_stream() {
    let mut c: Connection<u8> = Connection::new();
    assert!(matches!(c.connect(ConnectEvent::Opened(None)), ConnectAction::NoStream));
    assert!(c.stream.is_none());
}

#[test]
fn failed_open_keeps_an_earlier_stream() {
    let mut c: Connection<u8> = Connection::new();
    c.stream = Some(4);
    assert!(matches!(c.connect(ConnectEvent::Opened(None)), ConnectAction::Handshake(_)));
    assert_eq!(c.stream, Some(4));
}

#[test]
fn connect_finishes_on_the_reply() {
    let mut c: Connection<u8> = Connection::new();
    assert!(matches!(
        c.connect(ConnectEvent::Replied(String::from("SUCCESS"))),
        ConnectAction::Finished(true)
    ));
    assert!(matches!(
        c.connect(ConnectEvent::Replied(String::from("ERROR: bad key"))),
        ConnectAction::Finished(false)
    ));
}

#[test]
fn root_without_connection_cannot_connect() {
    let mut r: R<u8> = R::new();
    assert!(r.connection.is_none());
    assert!(matches!(r.connect(ConnectEvent::Begin), ConnectAction::NoConnection));
}

#[test]
fn root_connects_through_its_connection() {
    let mut r: R<u8> = R::new();
    r.use_connection(Connection::new());
    assert!(r.connection.is_some());
    assert!(matches!(r.connect(ConnectEvent::Begin), ConnectAction::Open(_)));
    assert!(matches!(r.connect(ConnectEvent::Opened(Some(2))), ConnectAction::Handshake(_)));
    assert_eq!(r.connection.as_ref().unwrap().stream, Some(2));
}

#[test]
fn token_and_stream_getters() {
    let mut c: Connection<u8> = Connection::new();
    assert_eq!(c.token(), 0);
    assert!(!c.has_stream());
    c.stream = Some(1);
    c.token = 9;
    assert_eq!(c.token(), 9);
    assert!(c.has_stream());
}

#[test]
fn database_term_leaves_the_root_as_it_was() {
    let mut r: R<u8> = R::new();
    let mut c: Connection<u8> = Connection::new();
    c.stream = Some(5);
    c.token = 3;
    r.use_connection(c);
    {
        let d = r.db("DeppFans");
        let _ = d.table("Animals");
    }
    let kept = r.connection.as_ref().unwrap();
    assert_eq!(kept.token, 3);
    assert_eq!(kept.stream, Some(5));
}
