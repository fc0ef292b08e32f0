use rethink::net::{
    handshake_accepted, handshake_request, query_frame, read_handshake_response,
    read_query_response, send_query, Connection,
};

#[test]
fn handshake_request_bytes() {
    assert_eq!(
        handshake_request(),
        vec![0x20, 0x2d, 0x0c, 0x40, 0, 0, 0, 0, 0xc7, 0x70, 0x69, 0x7e]
    );
}

#[test]
fn frame_layout() {
    let q = "[1,[15, [[14, [\"DeppFans\"]], \"Animals\"]],{}]".as_bytes();
    let f = query_frame(1, q);
    assert_eq!(f.len(), 12 + q.len());
    assert_eq!(&f[..8], &[0, 0, 0, 0, 0, 0, 0, 1]);
    assert_eq!(&f[8..12], &[q.len() as u8, 0, 0, 0]);
    assert_eq!(&f[12..], q);
}

#[test]
fn frame_token_is_big_endian() {
    let f = query_frame(0x0102030405060708, b"x");
    assert_eq!(f, vec![1, 2, 3, 4, 5, 6, 7, 8, 1, 0, 0, 0, b'x']);
}

#[test]
fn frame_length_is_little_endian() {
    let q = vec![b'a'; 0x0203];
    let f = query_frame(0, &q);
    assert_eq!(&f[8..12], &[0x03, 0x02, 0, 0]);
}

#[test]
fn frame_of_empty_query() {
    assert_eq!(query_frame(5, b""), vec![0, 0, 0, 0, 0, 0, 0, 5, 0, 0, 0, 0]);
}

#[test]
fn send_without_stream() {
    let mut c: Connection<u8> = Connection::new();
    assert!(send_query(String::from("[1, [59], {}]"), &mut c).is_none());
    assert_eq!(c.token, 0);
}

#[test]
fn send_with_stream() {
    let mut c: Connection<u8> = Connection::new();
    c.stream = Some(3);
    c.token = 41;
    let f = send_query(String::from("q"), &mut c).unwrap();
    assert_eq!(f, vec![0, 0, 0, 0, 0, 0, 0, 42, 1, 0, 0, 0, b'q']);
    assert_eq!(c.token, 42);
}

#[test]
fn send_counts_utf8_bytes() {
    let mut c: Connection<u8> = Connection::new();
    c.stream = Some(3);
    let f = send_query(String::from("é"), &mut c).unwrap();
    assert_eq!(&f[8..], &[2, 0, 0, 0, 0xc3, 0xa9]);
}

#[test]
fn handshake_reply_drops_the_terminator() {
    let mut buffer = [0u8; 100];
    buffer[..8].copy_from_slice(b"SUCCESS\0");
    assert_eq!(read_handshake_response(&buffer, 8), "SUCCESS");
}

#[test]
fn handshake_reply_of_one_byte_is_empty() {
    let buffer = [0u8; 100];
    assert_eq!(read_handshake_response(&buffer, 1), "");
}

#[test]
fn query_reply_text() {
    let reply = b"{\"t\":1,\"r\":[]}";
    assert_eq!(read_query_response(reply), "{\"t\":1,\"r\":[]}");
}

#[test]
fn handshake_granted_only_on_success() {
    assert!(handshake_accepted("SUCCESS"));
    assert!(!handshake_accepted("SUCCESS "));
    assert!(!handshake_accepted("ERROR: Received an unsupported protocol version."));
    assert!(!handshake_accepted(""));
}

#[test]
fn many_sends_take_increasing_tokens() {
    let mut c: Connection<u8> = Connection::new();
    c.stream = Some(0);
    for i in 1..=20u64 {
        let f = send_query(String::from("[1, [59], {}]"), &mut c).unwrap();
        assert_eq!(&f[..8], &i.to_be_bytes());
        assert_eq!(c.token, i);
    }
}
