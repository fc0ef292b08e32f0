use rethink::ast::{RqlQuery, R};
use rethink::net::Connection;

#[test]
fn db_term_text() {
    let mut r: R<u8> = R::new();
    assert_eq!(r.db("DeppFans").build(), "[14, [\"DeppFans\"]]");
}

#[test]
fn table_term_text() {
    let mut r: R<u8> = R::new();
    let t = r.db("DeppFans").table("Animals");
    assert_eq!(t.build(), "[15, [[14, [\"DeppFans\"]], \"Animals\"]]");
}

#[test]
fn table_list_term_text() {
    let mut r: R<u8> = R::new();
    let t = r.db("DeppFans").table_list();
    assert_eq!(t.build(), "[62, [[14, [\"DeppFans\"]]]]");
}

#[test]
fn table_create_term_text() {
    let mut r: R<u8> = R::new();
    let t = r.db("DeppFans").table_create("Clouds");
    assert_eq!(t.build(), "[60, [[14, [\"DeppFans\"]], \"Clouds\"]]");
}

#[test]
fn empty_names_are_written_between_quotes() {
    let mut r: R<u8> = R::new();
    assert_eq!(r.db("").build(), "[14, [\"\"]]");
    let mut r2: R<u8> = R::new();
    assert_eq!(r2.db("d").table("").build(), "[15, [[14, [\"d\"]], \"\"]]");
    let mut r3: R<u8> = R::new();
    assert_eq!(r3.db("d").table_create("").build(), "[60, [[14, [\"d\"]]]]");
}

#[test]
fn run_without_stream_sends_nothing() {
    let mut r: R<u8> = R::new();
    let mut c: Connection<u8> = Connection::new();
    let d = r.db("DeppFans").table("Animals").run(&mut c);
    assert_eq!(d.query, "[1, [15, [[14, [\"DeppFans\"]], \"Animals\"]], {}]");
    assert!(d.frame.is_none());
    assert_eq!(c.token, 0);
    assert!(c.stream.is_none());
}

#[test]
fn run_with_stream_frames_the_query() {
    let mut r: R<u8> = R::new();
    let mut c: Connection<u8> = Connection::new();
    c.stream = Some(7);
    let d = r.db("DeppFans").table_list().run(&mut c);
    let text = "[1, [62, [[14, [\"DeppFans\"]]]], {}]";
    assert_eq!(d.query, text);
    let mut expected: Vec<u8> = vec![0, 0, 0, 0, 0, 0, 0, 1];
    expected.extend_from_slice(&(text.len() as u32).to_le_bytes());
    expected.extend_from_slice(text.as_bytes());
    assert_eq!(d.frame, Some(expected));
    assert_eq!(c.token, 1);
    assert_eq!(c.stream, Some(7));
}

#[test]
fn successive_runs_take_successive_tokens() {
    let mut r: R<u8> = R::new();
    let mut c: Connection<u8> = Connection::new();
    c.stream = Some(1);
    let d1 = r.db("a").table("b").run(&mut c);
    let d2 = r.db("a").table_list().run(&mut c);
    let f1 = d1.frame.unwrap();
    let f2 = d2.frame.unwrap();
    assert_eq!(&f1[..8], &[0, 0, 0, 0, 0, 0, 0, 1]);
    assert_eq!(&f2[..8], &[0, 0, 0, 0, 0, 0, 0, 2]);
    assert_eq!(c.token, 2);
}
