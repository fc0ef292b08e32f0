//! The connection: its state, the bytes of the handshake and of each query
//! frame, and the decisions taken while connecting and sending.
//!
//! Reading and writing the socket is left to the caller: the functions here
//! say what to write and what a received reply means.

use vstd::prelude::*;
use vstd::utf8::*;
use vstd::string::*;
use vstd::slice::*;
use byteorder::{WriteBytesExt, LittleEndian, BigEndian};
use crate::proto::{Version, Protocol};

verus! {

// ------------------------------------------------------------------
// Byte layouts
// ------------------------------------------------------------------

/// The eight bytes of `n`, most significant first.
pub open spec fn be_u64_bytes(n: u64) -> Seq<u8> {
    seq![
        (n >> 56u64) as u8,
        (n >> 48u64) as u8,
        (n >> 40u64) as u8,
        (n >> 32u64) as u8,
        (n >> 24u64) as u8,
        (n >> 16u64) as u8,
        (n >> 8u64) as u8,
        n as u8,
    ]
}

/// The four bytes of `n`, least significant first.
pub open spec fn le_u32_bytes(n: u32) -> Seq<u8> {
    seq![n as u8, (n >> 8u32) as u8, (n >> 16u32) as u8, (n >> 24u32) as u8]
}

/// The number that eight bytes stand for, read most significant first.
pub open spec fn be_u64_value(b: Seq<u8>) -> u64 {
    (b[0] as u64) << 56u64 | (b[1] as u64) << 48u64 | (b[2] as u64) << 40u64
        | (b[3] as u64) << 32u64 | (b[4] as u64) << 24u64 | (b[5] as u64) << 16u64
        | (b[6] as u64) << 8u64 | (b[7] as u64)
}

/// The number that four bytes stand for, read least significant first.
pub open spec fn le_u32_value(b: Seq<u8>) -> u32 {
    (b[0] as u32) | (b[1] as u32) << 8u32 | (b[2] as u32) << 16u32 | (b[3] as u32) << 24u32
}

/// A query frame: the query token (big-endian), the length of the query
/// text in bytes (little-endian, cut to 32 bits) and the text itself.
pub open spec fn frame_bytes(token: u64, query: Seq<u8>) -> Seq<u8> {
    be_u64_bytes(token) + le_u32_bytes(query.len() as u32) + query
}

/// The handshake: protocol version V0_4, an empty authorization key
/// (its length, 0) and the JSON protocol, each as a little-endian `u32`.
pub open spec fn handshake_bytes() -> Seq<u8> {
    le_u32_bytes(Version::V0_4.spec_code()) + le_u32_bytes(0) + le_u32_bytes(
        Protocol::JSON.spec_code(),
    )
}

/// Reading eight bytes back gives the number they were written from.
pub proof fn lemma_be_u64_roundtrip(n: u64)
    ensures
        be_u64_value(be_u64_bytes(n)) == n,
{
    assert(((((n >> 56u64) as u8) as u64) << 56u64 | (((n >> 48u64) as u8) as u64) << 48u64
        | (((n >> 40u64) as u8) as u64) << 40u64 | (((n >> 32u64) as u8) as u64) << 32u64
        | (((n >> 24u64) as u8) as u64) << 24u64 | (((n >> 16u64) as u8) as u64) << 16u64
        | (((n >> 8u64) as u8) as u64) << 8u64 | ((n as u8) as u64)) == n) by (bit_vector);
}

/// Reading four bytes back gives the number they were written from.
pub proof fn lemma_le_u32_roundtrip(n: u32)
    ensures
        le_u32_value(le_u32_bytes(n)) == n,
{
    assert((((n as u8) as u32) | (((n >> 8u32) as u8) as u32) << 8u32 | (((n >> 16u32) as u8)
        as u32) << 16u32 | (((n >> 24u32) as u8) as u32) << 24u32) == n) by (bit_vector);
}

/// A frame can be read back: its first eight bytes give the token, the next
/// four the length of the query text (cut to 32 bits), and the rest is the
/// text itself.
pub proof fn lemma_frame_reads_back(token: u64, query: Seq<u8>)
    ensures
        frame_bytes(token, query).len() == 12 + query.len(),
        be_u64_value(frame_bytes(token, query).take(8)) == token,
        le_u32_value(frame_bytes(token, query).subrange(8, 12)) == query.len() as u32,
        frame_bytes(token, query).skip(12) == query,
{
    let f = frame_bytes(token, query);
    lemma_be_u64_roundtrip(token);
    lemma_le_u32_roundtrip(query.len() as u32);
    assert(f.take(8) =~= be_u64_bytes(token));
    assert(f.subrange(8, 12) =~= le_u32_bytes(query.len() as u32));
    assert(f.skip(12) =~= query);
}

/// The handshake bytes: `20 2d 0c 40` (V0_4), `00 00 00 00` (no key) and
/// `c7 70 69 7e` (JSON).
pub proof fn lemma_handshake_bytes()
    ensures
        handshake_bytes() == seq![
            0x20u8,
            0x2d,
            0x0c,
            0x40,
            0,
            0,
            0,
            0,
            0xc7,
            0x70,
            0x69,
            0x7e,
        ],
{
    let v: u32 = 0x400c2d20;
    let j: u32 = 0x7e6970c7;
    let z: u32 = 0;
    assert(v as u8 == 0x20 && (v >> 8u32) as u8 == 0x2d && (v >> 16u32) as u8 == 0x0c && (v
        >> 24u32) as u8 == 0x40) by (bit_vector)
        requires
            v == 0x400c2d20,
    ;
    assert(j as u8 == 0xc7 && (j >> 8u32) as u8 == 0x70 && (j >> 16u32) as u8 == 0x69 && (j
        >> 24u32) as u8 == 0x7e) by (bit_vector)
        requires
            j == 0x7e6970c7,
    ;
    assert(z as u8 == 0 && (z >> 8u32) as u8 == 0 && (z >> 16u32) as u8 == 0 && (z >> 24u32) as u8
        == 0) by (bit_vector)
        requires
            z == 0,
    ;
    assert(handshake_bytes() =~= seq![
        0x20u8,
        0x2d,
        0x0c,
        0x40,
        0,
        0,
        0,
        0,
        0xc7,
        0x70,
        0x69,
        0x7e,
    ]);
}

/// What each step of connecting does, whatever else holds: the address and
/// the token never change; `Begin` asks to open the connection's address;
/// a stream that was opened is kept and the handshake bytes are sent on it;
/// a reply finishes the handshake, granted exactly when it is `SUCCESS`.
pub proof fn lemma_connect_steps<S>(
    pre: Connection<S>,
    post: Connection<S>,
    event: ConnectEvent<S>,
    action: ConnectAction,
)
    requires
        connect_step(pre, post, event, action),
    ensures
        post.spec_addr() == pre.spec_addr(),
        post.spec_token() == pre.spec_token(),
        event is Begin ==> (action matches ConnectAction::Open(a) && a@ == pre.spec_addr()),
        event matches ConnectEvent::Opened(Some(s)) ==> (post.spec_stream() == Some(s) && (
        action matches ConnectAction::Handshake(req) && req@ == seq![
            0x20u8,
            0x2d,
            0x0c,
            0x40,
            0,
            0,
            0,
            0,
            0xc7,
            0x70,
            0x69,
            0x7e,
        ])),
        event matches ConnectEvent::Opened(None) ==> post.spec_stream() == pre.spec_stream(),
        event matches ConnectEvent::Replied(r) ==> (action matches ConnectAction::Finished(ok) && (
        ok <==> r@ == seq!['S', 'U', 'C', 'C', 'E', 'S', 'S'])),
{
    lemma_handshake_bytes();
    if let ConnectEvent::Replied(r) = event {
        lemma_accepts(r@);
    }
}

/// Two queries sent one after the other on a connection carry consecutive
/// tokens, the first one above the token the connection held: a query never
/// reuses the token of the query before it.
pub proof fn lemma_consecutive_tokens<S>(
    c0: Connection<S>,
    c1: Connection<S>,
    c2: Connection<S>,
    q1: Seq<u8>,
    q2: Seq<u8>,
    f1: Seq<u8>,
    f2: Seq<u8>,
)
    requires
        send_step(c0, c1, q1, Some(f1)),
        send_step(c1, c2, q2, Some(f2)),
    ensures
        be_u64_value(f1.take(8)) == c0.spec_token() + 1,
        be_u64_value(f2.take(8)) == be_u64_value(f1.take(8)) + 1,
{
    lemma_frame_reads_back(c1.spec_token(), q1);
    lemma_frame_reads_back(c2.spec_token(), q2);
}

/// The handshake reads back as version V0_4, an empty key and the JSON
/// protocol.
pub proof fn lemma_handshake_reads_back()
    ensures
        handshake_bytes().len() == 12,
        le_u32_value(handshake_bytes().subrange(0, 4)) == Version::V0_4.spec_code(),
        le_u32_value(handshake_bytes().subrange(4, 8)) == 0,
        le_u32_value(handshake_bytes().subrange(8, 12)) == Protocol::JSON.spec_code(),
{
    let h = handshake_bytes();
    lemma_le_u32_roundtrip(Version::V0_4.spec_code());
    lemma_le_u32_roundtrip(0);
    lemma_le_u32_roundtrip(Protocol::JSON.spec_code());
    assert(h.subrange(0, 4) =~= le_u32_bytes(Version::V0_4.spec_code()));
    assert(h.subrange(4, 8) =~= le_u32_bytes(0));
    assert(h.subrange(8, 12) =~= le_u32_bytes(Protocol::JSON.spec_code()));
}

/// `byteorder::WriteBytesExt::write_u64::<BigEndian>` on a byte vector.
/// byteorder fills an eight-byte buffer with `n.to_be_bytes()` and hands it
/// to `write_all`; on a `Vec<u8>` that appends the bytes and cannot fail.
#[verifier::external_body]
fn write_u64_be(buf: &mut Vec<u8>, n: u64)
    ensures
        final(buf)@ == old(buf)@ + be_u64_bytes(n),
{
    let _ = buf.write_u64::<BigEndian>(n);
}

/// `byteorder::WriteBytesExt::write_u32::<LittleEndian>` on a byte vector.
/// byteorder fills a four-byte buffer with `n.to_le_bytes()` and hands it
/// to `write_all`; on a `Vec<u8>` that appends the bytes and cannot fail.
#[verifier::external_body]
fn write_u32_le(buf: &mut Vec<u8>, n: u32)
    ensures
        final(buf)@ == old(buf)@ + le_u32_bytes(n),
{
    let _ = buf.write_u32::<LittleEndian>(n);
}

/// `std::str::from_utf8`: a string exactly when the bytes are valid UTF-8,
/// and then the string whose encoding is those bytes.
#[verifier::external_body]
fn utf8_str(v: &[u8]) -> (res: Option<&str>)
    ensures
        res is Some <==> valid_utf8(v@),
        res matches Some(s) ==> s@ == decode_utf8(v@) && s.spec_bytes() == v@,
{
    std::str::from_utf8(v).ok()
}

/// The frame that carries `query` under `token`.
pub fn query_frame(token: u64, query: &[u8]) -> (frame: Vec<u8>)
    ensures
        frame@ == frame_bytes(token, query@),
{
    let mut frame: Vec<u8> = Vec::new();
    write_u64_be(&mut frame, token);
    write_u32_le(&mut frame, query.len() as u32);
    let ghost head = frame@;
    frame.extend_from_slice(query);
    assert(frame@ =~= head + query@);
    frame
}

/// The bytes a client sends to open the handshake.
pub fn handshake_request() -> (req: Vec<u8>)
    ensures
        req@ == handshake_bytes(),
{
    let version = Version::V0_4.code();
    let protocol = Protocol::JSON.code();
    let mut req: Vec<u8> = Vec::new();
    write_u32_le(&mut req, version);
    write_u32_le(&mut req, 0);
    write_u32_le(&mut req, protocol);
    req
}

/// The server's reply to the handshake: of the `size` bytes read into
/// `buffer`, all but the last (a terminating NUL), as text.
pub fn read_handshake_response(buffer: &[u8], size: usize) -> (msg: String)
    requires
        1 <= size <= buffer@.len(),
        valid_utf8(buffer@.take(size - 1)),
    ensures
        msg@ == decode_utf8(buffer@.take(size - 1)),
{
    let msg_bytes = slice_subrange(buffer, 0, size - 1);
    assert(msg_bytes@ == buffer@.take(size - 1));
    match utf8_str(msg_bytes) {
        Some(m) => String::from_str(m),
        None => {
            proof {
                assert(false);
            }
            String::new()
        },
    }
}

/// The server's reply to a query, as text.
pub fn read_query_response(buffer: &[u8]) -> (msg: String)
    requires
        valid_utf8(buffer@),
    ensures
        msg@ == decode_utf8(buffer@),
{
    match utf8_str(buffer) {
        Some(m) => String::from_str(m),
        None => {
            proof {
                assert(false);
            }
            String::new()
        },
    }
}

/// Whether the handshake reply grants the connection.
pub open spec fn accepts(reply: Seq<char>) -> bool {
    reply == "SUCCESS"@
}

/// A reply grants the connection exactly when it is the seven characters
/// `SUCCESS`: any other reply, every `ERROR: ...` among them, is refused.
pub proof fn lemma_accepts(reply: Seq<char>)
    ensures
        accepts(reply) <==> reply == seq!['S', 'U', 'C', 'C', 'E', 'S', 'S'],
        accepts(reply) ==> reply.len() == 7,
        reply.len() > 0 && reply[0] != 'S' ==> !accepts(reply),
{
    reveal_strlit("SUCCESS");
    assert("SUCCESS"@ =~= seq!['S', 'U', 'C', 'C', 'E', 'S', 'S']);
}

/// Whether the handshake reply grants the connection: exactly when it reads
/// `SUCCESS`.
pub fn handshake_accepted(reply: &str) -> (ok: bool)
    ensures
        ok == accepts(reply@),
        ok <==> reply@ == seq!['S', 'U', 'C', 'C', 'E', 'S', 'S'],
{
    proof {
        lemma_accepts(reply@);
    }
    let expected = String::from_str("SUCCESS");
    let got = String::from_str(reply);
    got == expected
}

// ------------------------------------------------------------------
// The connection
// ------------------------------------------------------------------

/// A connection to a RethinkDB server over a byte stream of type `S`: the
/// server's address, the token of the last query sent, and the stream once
/// it is open.
pub struct Connection<S> {
    addr: &'static str,
    pub token: u64,
    pub stream: Option<S>,
}

/// What happened since the last step of connecting.
pub enum ConnectEvent<S> {
    /// Connecting starts.
    Begin,
    /// The attempt to open a stream to the address ended: the stream, or
    /// `None` where it could not be opened.
    Opened(Option<S>),
    /// The server replied to the handshake with this text.
    Replied(String),
}

/// What to do next while connecting.
pub enum ConnectAction {
    /// Open a stream to this address and report it with `Opened`.
    Open(&'static str),
    /// Write these bytes to the stream, read the reply and report it with
    /// `Replied`.
    Handshake(Vec<u8>),
    /// There is no connection to connect: connecting failed.
    NoConnection,
    /// There is no open stream to shake hands on: connecting failed.
    NoStream,
    /// The handshake is over; the server granted the connection or not.
    Finished(bool),
}

/// One step of connecting, from connection `pre` to connection `post` on
/// `event`, answered by `action`: `Begin` asks to open a stream to the
/// address; `Opened` keeps the stream that was opened (or the one held
/// before) and starts the handshake on it, or fails where there is none;
/// `Replied` finishes, granted exactly when the reply reads `SUCCESS`. The
/// address and the token never change.
pub open spec fn connect_step<S>(
    pre: Connection<S>,
    post: Connection<S>,
    event: ConnectEvent<S>,
    action: ConnectAction,
) -> bool {
    &&& post.spec_addr() == pre.spec_addr()
    &&& post.spec_token() == pre.spec_token()
    &&& match event {
        ConnectEvent::Begin => {
            &&& post.spec_stream() == pre.spec_stream()
            &&& action matches ConnectAction::Open(a) && a@ == pre.spec_addr()
        },
        ConnectEvent::Opened(opened) => {
            &&& post.spec_stream() == (if opened is Some {
                opened
            } else {
                pre.spec_stream()
            })
            &&& post.spec_stream() is Some ==> (action matches ConnectAction::Handshake(req)
                && req@ == handshake_bytes())
            &&& post.spec_stream() is None ==> action is NoStream
        },
        ConnectEvent::Replied(reply) => {
            &&& post.spec_stream() == pre.spec_stream()
            &&& action == ConnectAction::Finished(accepts(reply@))
        },
    }
}

impl<S> Connection<S> {
    /// The address of the server.
    pub closed spec fn spec_addr(&self) -> Seq<char> {
        self.addr@
    }

    /// The token of the last query sent.
    pub closed spec fn spec_token(&self) -> u64 {
        self.token
    }

    /// The stream, once open.
    pub closed spec fn spec_stream(&self) -> Option<S> {
        self.stream
    }

    /// The token of the last query sent.
    pub fn token(&self) -> (t: u64)
        ensures
            t == self.spec_token(),
    {
        self.token
    }

    /// Whether the stream is open.
    pub fn has_stream(&self) -> (b: bool)
        ensures
            b == self.spec_stream() is Some,
    {
        self.stream.is_some()
    }

    /// A connection to the default local server, with no stream open and
    /// no query sent.
    pub fn new() -> (c: Self)
        ensures
            c.spec_addr() == "127.0.0.1:28015"@,
            c.spec_token() == 0,
            c.spec_stream() is None,
    {
        Connection { addr: "127.0.0.1:28015", token: 0, stream: None }
    }

    /// One step of connecting: open a stream to the server, then send the
    /// handshake over it and judge the reply.
    pub fn connect(&mut self, event: ConnectEvent<S>) -> (action: ConnectAction)
        ensures
            connect_step(*old(self), *final(self), event, action),
    {
        match event {
            ConnectEvent::Begin => ConnectAction::Open(self.addr),
            ConnectEvent::Opened(opened) => {
                establish_connection(self, opened);
                handshake(self)
            },
            ConnectEvent::Replied(reply) => ConnectAction::Finished(
                handshake_accepted(reply.as_str()),
            ),
        }
    }
}

/// Keeps the stream that was opened, if one was.
fn establish_connection<S>(c: &mut Connection<S>, opened: Option<S>)
    ensures
        final(c).spec_addr() == old(c).spec_addr(),
        final(c).spec_token() == old(c).spec_token(),
        final(c).spec_stream() == (if opened is Some {
            opened
        } else {
            old(c).spec_stream()
        }),
{
    match opened {
        Some(stream) => {
            c.stream = Some(stream);
        },
        None => {},
    }
}

/// Starts the handshake on the open stream, if there is one.
fn handshake<S>(c: &Connection<S>) -> (action: ConnectAction)
    ensures
        c.spec_stream() is Some ==> (action matches ConnectAction::Handshake(req) && req@
            == handshake_bytes()),
        c.spec_stream() is None ==> action is NoStream,
{
    if c.stream.is_some() {
        ConnectAction::Handshake(handshake_request())
    } else {
        ConnectAction::NoStream
    }
}

/// The frame's bytes, if there is a frame.
pub open spec fn frame_view(frame: Option<Vec<u8>>) -> Option<Seq<u8>> {
    match frame {
        Some(f) => Some(f@),
        None => None,
    }
}

/// Sending the query whose bytes are `query`, from connection `pre` to
/// connection `post`, gives `frame`: with an open stream, the token goes up
/// by one and the frame carries the query under the new token; without one,
/// nothing changes and there is no frame.
pub open spec fn send_step<S>(
    pre: Connection<S>,
    post: Connection<S>,
    query: Seq<u8>,
    frame: Option<Seq<u8>>,
) -> bool {
    &&& post.spec_addr() == pre.spec_addr()
    &&& post.spec_stream() == pre.spec_stream()
    &&& pre.spec_stream() is None ==> post.spec_token() == pre.spec_token() && frame is None
    &&& pre.spec_stream() is Some ==> {
        &&& post.spec_token() == pre.spec_token() + 1
        &&& frame == Some(frame_bytes(post.spec_token(), query))
    }
}

/// Sends `query` on the connection: with an open stream, takes the next
/// token and gives the frame to write; without one, changes nothing and
/// gives `None`.
pub fn send_query<S>(query: String, c: &mut Connection<S>) -> (frame: Option<Vec<u8>>)
    requires
        old(c).spec_stream() is Some ==> old(c).spec_token() < u64::MAX,
    ensures
        send_step(*old(c), *final(c), encode_utf8(query@), frame_view(frame)),
{
    let bytes = query.as_str().as_bytes();
    if c.stream.is_some() {
        c.token = c.token + 1;
        Some(query_frame(c.token, bytes))
    } else {
        None
    }
}

/// Queries sent one after another on a connection, each with an open
/// stream: connection `cs[i]` sends query `qs[i]` as frame `fs[i]` and
/// becomes `cs[i + 1]`.
pub open spec fn send_chain<S>(cs: Seq<Connection<S>>, qs: Seq<Seq<u8>>, fs: Seq<Seq<u8>>) -> bool {
    &&& cs.len() == qs.len() + 1
    &&& fs.len() == qs.len()
    &&& forall|i: int|
        0 <= i < qs.len() ==> #[trigger] send_step(cs[i], cs[i + 1], qs[i], Some(fs[i]))
}

/// After n queries the token has gone up by n, and the i-th frame (from
/// zero) carries the token one above the i-th connection's: tokens sent on
/// a connection strictly increase, so no two queries share one. From a new
/// connection, whose token is 0, the first query goes under token 1.
pub proof fn lemma_tokens_increase<S>(cs: Seq<Connection<S>>, qs: Seq<Seq<u8>>, fs: Seq<Seq<u8>>)
    requires
        send_chain(cs, qs, fs),
    ensures
        forall|i: int| 0 <= i < cs.len() ==> #[trigger] cs[i].spec_token() == cs[0].spec_token() + i,
        forall|i: int|
            0 <= i < fs.len() ==> be_u64_value(#[trigger] fs[i].take(8)) == cs[0].spec_token() + i
                + 1,
        forall|i: int, j: int|
            0 <= i < j < fs.len() ==> be_u64_value(#[trigger] fs[i].take(8)) < be_u64_value(
                #[trigger] fs[j].take(8),
            ),
    decreases qs.len(),
{
    let n = qs.len();
    if n > 0 {
        let cs1 = cs.drop_last();
        let qs1 = qs.drop_last();
        let fs1 = fs.drop_last();
        assert forall|i: int| 0 <= i < qs1.len() implies #[trigger] send_step(
            cs1[i],
            cs1[i + 1],
            qs1[i],
            Some(fs1[i]),
        ) by {
            assert(send_step(cs[i], cs[i + 1], qs[i], Some(fs[i])));
        }
        lemma_tokens_increase(cs1, qs1, fs1);
        let k = n - 1;
        assert(send_step(cs[k], cs[k + 1], qs[k], Some(fs[k])));
        lemma_frame_reads_back(cs[k + 1].spec_token(), qs[k]);
        assert forall|i: int| 0 <= i < cs.len() implies #[trigger] cs[i].spec_token()
            == cs[0].spec_token() + i by {
            assert(cs1[0] == cs[0]);
            if i < cs1.len() {
                assert(cs1[i] == cs[i]);
            } else {
                assert(cs1[k] == cs[k]);
                assert(cs1[k].spec_token() == cs1[0].spec_token() + k);
            }
        }
        assert forall|i: int| 0 <= i < fs.len() implies be_u64_value(#[trigger] fs[i].take(8))
            == cs[0].spec_token() + i + 1 by {
            if i < fs1.len() {
                assert(fs1[i] == fs[i]);
            } else {
                assert(cs[i + 1].spec_token() == cs[0].spec_token() + i + 1);
            }
        }
    }
}

} // verus!
