//! ReQL query terms and the JSON text they are sent as.
//!
//! A term is written `[code, [args...]]`: the code of its term type, then
//! its arguments, the term it was built on first. `r.db("d").table("t")`
//! is written `[15, [[14, ["d"]], "t"]]`. Arguments are written between
//! quotes as they are given.

use vstd::prelude::*;
use crate::proto::{TermType, QueryType};
use crate::net::{Connection, ConnectEvent, ConnectAction, connect_step, send_query, send_step, frame_view};
use vstd::utf8::*;

verus! {

// ------------------------------------------------------------------
// Decimal numbers
// ------------------------------------------------------------------

/// The character of the decimal digit `d`.
pub open spec fn digit_char(d: nat) -> char {
    if d == 0 {
        '0'
    } else if d == 1 {
        '1'
    } else if d == 2 {
        '2'
    } else if d == 3 {
        '3'
    } else if d == 4 {
        '4'
    } else if d == 5 {
        '5'
    } else if d == 6 {
        '6'
    } else if d == 7 {
        '7'
    } else if d == 8 {
        '8'
    } else {
        '9'
    }
}

/// The decimal digits of `n`, most significant first, with no leading zero.
pub open spec fn decimal(n: nat) -> Seq<char>
    decreases n,
{
    if n < 10 {
        seq![digit_char(n)]
    } else {
        decimal(n / 10).push(digit_char(n % 10))
    }
}

/// The one-character text of the digit `d`.
fn digit_str(d: u32) -> (s: &'static str)
    requires
        d < 10,
    ensures
        s@ == seq![digit_char(d as nat)],
{
    match d {
        0 => {
            proof {
                reveal_strlit("0");
            }
            "0"
        },
        1 => {
            proof {
                reveal_strlit("1");
            }
            "1"
        },
        2 => {
            proof {
                reveal_strlit("2");
            }
            "2"
        },
        3 => {
            proof {
                reveal_strlit("3");
            }
            "3"
        },
        4 => {
            proof {
                reveal_strlit("4");
            }
            "4"
        },
        5 => {
            proof {
                reveal_strlit("5");
            }
            "5"
        },
        6 => {
            proof {
                reveal_strlit("6");
            }
            "6"
        },
        7 => {
            proof {
                reveal_strlit("7");
            }
            "7"
        },
        8 => {
            proof {
                reveal_strlit("8");
            }
            "8"
        },
        _ => {
            proof {
                reveal_strlit("9");
            }
            "9"
        },
    }
}

/// Appends the decimal digits of `n`.
fn push_decimal(s: &mut String, n: u32)
    ensures
        final(s)@ == old(s)@ + decimal(n as nat),
    decreases n,
{
    if n >= 10 {
        push_decimal(s, n / 10);
    }
    s.append(digit_str(n % 10));
    assert(s@ =~= old(s)@ + decimal(n as nat));
}

// ------------------------------------------------------------------
// Term text
// ------------------------------------------------------------------

/// `s` between double quotes.
pub open spec fn quoted(s: Seq<char>) -> Seq<char> {
    "\""@ + s + "\""@
}

/// A term of code `code` with the argument list written `args`:
/// `[code, [args]]`.
pub open spec fn wrapped(code: u32, args: Seq<char>) -> Seq<char> {
    "["@ + decimal(code as nat) + ", ["@ + args + "]]"@
}

/// The text of a term of type `tt` with the string argument `args` (none
/// where it is empty), built on the term whose text is `prev`, if any.
pub open spec fn term_text(tt: TermType, args: Seq<char>, prev: Option<Seq<char>>) -> Seq<char> {
    match prev {
        None => if args.len() == 0 {
            "["@ + decimal(tt.spec_code() as nat) + "]"@
        } else {
            wrapped(tt.spec_code(), quoted(args))
        },
        Some(p) => if args.len() == 0 {
            wrapped(tt.spec_code(), p)
        } else {
            wrapped(tt.spec_code(), p + ", "@ + quoted(args))
        },
    }
}

/// The text of a database term of type `tt` naming `name`.
pub open spec fn db_text(tt: TermType, name: Seq<char>) -> Seq<char> {
    wrapped(tt.spec_code(), quoted(name))
}

/// The text of a table term of type `tt` naming `name` in the database
/// whose text is `db`.
pub open spec fn table_text(tt: TermType, db: Seq<char>, name: Seq<char>) -> Seq<char> {
    wrapped(tt.spec_code(), db + ", "@ + quoted(name))
}

/// The text of a query that starts the term whose text is `term`:
/// `[1, term, {}]`, with no global options.
pub open spec fn start_query_text(term: Seq<char>) -> Seq<char> {
    "["@ + decimal(QueryType::START.spec_code() as nat) + ", "@ + term + ", {}]"@
}

// ------------------------------------------------------------------
// Laws of the term text
// ------------------------------------------------------------------

/// The number that a text of decimal digits stands for.
pub open spec fn digits_value(s: Seq<char>) -> nat
    decreases s.len(),
{
    if s.len() == 0 {
        0
    } else {
        digits_value(s.drop_last()) * 10 + ((s.last() as int) - ('0' as int)) as nat
    }
}

/// Decimal text reads back: it is made of the digits `0`-`9` only, it is
/// not empty, it starts with `0` only for zero, and it stands for `n`.
pub proof fn lemma_decimal_reads_back(n: nat)
    ensures
        decimal(n).len() >= 1,
        forall|i: int|
            0 <= i < decimal(n).len() ==> '0' <= #[trigger] decimal(n)[i] && decimal(n)[i] <= '9',
        n > 0 ==> decimal(n)[0] != '0',
        digits_value(decimal(n)) == n,
    decreases n,
{
    let k = n % 10;
    assert((digit_char(k) as int) - ('0' as int) == k) by {
        if k == 0 {} else if k == 1 {} else if k == 2 {} else if k == 3 {} else if k == 4 {
        } else if k == 5 {} else if k == 6 {} else if k == 7 {} else if k == 8 {} else {}
    }
    if n < 10 {
        assert(decimal(n).drop_last() =~= Seq::<char>::empty());
        assert(digits_value(decimal(n)) == digits_value(Seq::<char>::empty()) * 10 + k);
    } else {
        lemma_decimal_reads_back(n / 10);
        let d = decimal(n / 10);
        assert(decimal(n) == d.push(digit_char(n % 10)));
        assert(decimal(n).drop_last() =~= d);
        assert forall|i: int|
            0 <= i < decimal(n).len() implies '0' <= #[trigger] decimal(n)[i] && decimal(n)[i]
            <= '9' by {
            if i < d.len() {
                assert(decimal(n)[i] == d[i]);
            }
        }
        assert(digits_value(decimal(n)) == digits_value(d) * 10 + k);
        assert((n / 10) * 10 + n % 10 == n) by (nonlinear_arith);
    }
}

/// A query always starts its term: the text that running a term `t` writes
/// is `[1, ` then `t` then `, {}]`, whatever `t` is.
pub proof fn lemma_start_query_text(t: Seq<char>)
    ensures
        start_query_text(t) == "[1, "@ + t + ", {}]"@,
        start_query_text(t) == seq!['[', '1', ',', ' '] + t + seq![',', ' ', '{', '}', ']'],
{
    reveal_strlit("[1, ");
    reveal_strlit("[");
    reveal_strlit(", ");
    reveal_strlit(", {}]");
    assert(decimal(1) == seq!['1']);
    assert(start_query_text(t) =~= "[1, "@ + t + ", {}]"@);
    assert(start_query_text(t) =~= seq!['[', '1', ',', ' '] + t + seq![',', ' ', '{', '}', ']']);
}

/// The text of a term built on a term `p` with a non-empty argument `a`:
/// `[code, [p, "a"]]`, the term it was built on first, then the quoted
/// argument, whatever their lengths.
pub proof fn lemma_term_text_with_argument(tt: TermType, a: Seq<char>, p: Seq<char>)
    requires
        a.len() > 0,
    ensures
        term_text(tt, a, Some(p)) == "["@ + decimal(tt.spec_code() as nat) + ", ["@ + p
            + ", \""@ + a + "\"]]"@,
        term_text(tt, a, Some(p)) == seq!['['] + decimal(tt.spec_code() as nat) + seq![
            ',',
            ' ',
            '[',
        ] + p + seq![',', ' ', '"'] + a + seq!['"', ']', ']'],
{
    reveal_strlit("[");
    reveal_strlit(", [");
    reveal_strlit(", \"");
    reveal_strlit("\"]]");
    reveal_strlit("]]");
    reveal_strlit(", ");
    reveal_strlit("\"");
    assert(term_text(tt, a, Some(p)) =~= "["@ + decimal(tt.spec_code() as nat) + ", ["@ + p
        + ", \""@ + a + "\"]]"@);
}

/// The text of a term built on no other term: `[code]` with no argument,
/// `[code, ["a"]]` with a non-empty argument `a`.
pub proof fn lemma_term_text_alone(tt: TermType, a: Seq<char>)
    ensures
        a.len() == 0 ==> term_text(tt, a, None) == seq!['['] + decimal(tt.spec_code() as nat)
            + seq![']'],
        a.len() > 0 ==> term_text(tt, a, None) == seq!['['] + decimal(tt.spec_code() as nat)
            + seq![',', ' ', '[', '"'] + a + seq!['"', ']', ']'],
{
    reveal_strlit("[");
    reveal_strlit("]");
    reveal_strlit(", [");
    reveal_strlit("]]");
    reveal_strlit("\"");
    if a.len() == 0 {
        assert(term_text(tt, a, None) =~= seq!['['] + decimal(tt.spec_code() as nat) + seq![']']);
    } else {
        assert(term_text(tt, a, None) =~= seq!['['] + decimal(tt.spec_code() as nat) + seq![
            ',',
            ' ',
            '[',
            '"',
        ] + a + seq!['"', ']', ']']);
    }
}

/// The text of a term built on a term `p` with no argument: `[code, [p]]`.
pub proof fn lemma_term_text_without_argument(tt: TermType, p: Seq<char>)
    ensures
        term_text(tt, ""@, Some(p)) == seq!['['] + decimal(tt.spec_code() as nat) + seq![
            ',',
            ' ',
            '[',
        ] + p + seq![']', ']'],
{
    reveal_strlit("");
    reveal_strlit("[");
    reveal_strlit(", [");
    reveal_strlit("]]");
    assert(term_text(tt, ""@, Some(p)) =~= seq!['['] + decimal(tt.spec_code() as nat) + seq![
        ',',
        ' ',
        '[',
    ] + p + seq![']', ']']);
}

/// A database term names its database: `[14, ["name"]]`.
pub proof fn lemma_db_text(name: Seq<char>)
    ensures
        db_text(TermType::DB, name) == "[14, [\""@ + name + "\"]]"@,
        db_text(TermType::DB, name) == seq!['[', '1', '4', ',', ' ', '[', '"'] + name + seq![
            '"',
            ']',
            ']',
        ],
{
    reveal_strlit("[14, [\"");
    reveal_strlit("\"]]");
    reveal_strlit("[");
    reveal_strlit(", [");
    reveal_strlit("]]");
    reveal_strlit("\"");
    assert(decimal(14) == seq!['1', '4']) by {
        assert(decimal(1) == seq!['1']);
    }
    assert(db_text(TermType::DB, name) =~= "[14, [\""@ + name + "\"]]"@);
    assert(db_text(TermType::DB, name) =~= seq!['[', '1', '4', ',', ' ', '[', '"'] + name
        + seq!['"', ']', ']']);
}

/// A table term always holds its database's text `d` and then its quoted
/// name `n`: `[15, [d, "n"]]`, whatever their lengths.
pub proof fn lemma_table_text(d: Seq<char>, n: Seq<char>)
    ensures
        table_text(TermType::TABLE, d, n) == "[15, ["@ + d + ", \""@ + n + "\"]]"@,
        table_text(TermType::TABLE, d, n) == seq!['[', '1', '5', ',', ' ', '['] + d + seq![
            ',',
            ' ',
            '"',
        ] + n + seq!['"', ']', ']'],
{
    reveal_strlit("[15, [");
    reveal_strlit(", \"");
    reveal_strlit("\"]]");
    reveal_strlit("[");
    reveal_strlit(", [");
    reveal_strlit("]]");
    reveal_strlit(", ");
    reveal_strlit("\"");
    assert(decimal(15) == seq!['1', '5']) by {
        assert(decimal(1) == seq!['1']);
    }
    assert(table_text(TermType::TABLE, d, n) =~= "[15, ["@ + d + ", \""@ + n + "\"]]"@);
    assert(table_text(TermType::TABLE, d, n) =~= seq!['[', '1', '5', ',', ' ', '['] + d
        + seq![',', ' ', '"'] + n + seq!['"', ']', ']']);
}

/// Appends `"[code, ["`.
fn open_wrapped(s: &mut String, code: u32)
    ensures
        final(s)@ == old(s)@ + "["@ + decimal(code as nat) + ", ["@,
{
    s.append("[");
    push_decimal(s, code);
    s.append(", [");
    assert(s@ =~= old(s)@ + "["@ + decimal(code as nat) + ", ["@);
}

/// Appends `s` between double quotes.
fn push_quoted(s: &mut String, text: &str)
    ensures
        final(s)@ == old(s)@ + quoted(text@),
{
    s.append("\"");
    s.append(text);
    s.append("\"");
    assert(s@ =~= old(s)@ + quoted(text@));
}

// ------------------------------------------------------------------
// Queries
// ------------------------------------------------------------------

/// A query ready to go: its text, and the frame to write to the stream, or
/// `None` where the connection has no open stream.
pub struct Dispatch {
    pub query: String,
    pub frame: Option<Vec<u8>>,
}

/// A ReQL term that can be written out and run.
pub trait RqlQuery {
    /// The text of this term.
    spec fn spec_build(&self) -> Seq<char>;

    /// Writes out this term.
    fn build(&self) -> (s: String)
        ensures
            s@ == self.spec_build(),
    ;

    /// Runs this term on the connection: writes the query that starts it,
    /// `[1, term, {}]`, and sends it as `send_query` does.
    fn run<S>(&self, c: &mut Connection<S>) -> (d: Dispatch)
        requires
            old(c).spec_stream() is Some ==> old(c).spec_token() < u64::MAX,
        ensures
            d.query@ == start_query_text(self.spec_build()),
            d.query@ == "[1, "@ + self.spec_build() + ", {}]"@,
            send_step(*old(c), *final(c), encode_utf8(d.query@), frame_view(d.frame)),
    {
        let start = QueryType::START.code();
        let composed = self.build();
        let mut query = String::new();
        query.append("[");
        push_decimal(&mut query, start);
        query.append(", ");
        query.append(composed.as_str());
        query.append(", {}]");
        assert(query@ =~= start_query_text(self.spec_build()));
        proof {
            lemma_start_query_text(self.spec_build());
        }
        let text = query.clone();
        let frame = send_query(query, c);
        Dispatch { query: text, frame }
    }
}

/// A term of type `tt` with a string argument (none where it is empty),
/// built on the term `prev`, if any.
pub struct Term<T: RqlQuery> {
    tt: TermType,
    args: &'static str,
    prev: Option<Box<T>>,
}

impl<T: RqlQuery> Term<T> {
    /// The type of this term.
    pub closed spec fn spec_tt(&self) -> TermType {
        self.tt
    }

    /// The string argument of this term (none where it is empty).
    pub closed spec fn spec_args(&self) -> Seq<char> {
        self.args@
    }

    /// The text of the term this one is built on, if any.
    pub closed spec fn spec_prev_text(&self) -> Option<Seq<char>> {
        match self.prev {
            None => None,
            Some(p) => Some(p.spec_build()),
        }
    }
}

/// The text of any term: `[code]` alone, `[code, ["args"]]`, `[code, [prev]]`
/// or `[code, [prev, "args"]]`, after whether it is built on another term
/// and whether its argument is empty.
pub proof fn lemma_term_text<T: RqlQuery>(t: Term<T>)
    ensures
        t.spec_build() == term_text(t.spec_tt(), t.spec_args(), t.spec_prev_text()),
{
}

impl<T: RqlQuery> RqlQuery for Term<T> {
    closed spec fn spec_build(&self) -> Seq<char> {
        term_text(
            self.tt,
            self.args@,
            match self.prev {
                None => None,
                Some(p) => Some(p.spec_build()),
            },
        )
    }

    fn build(&self) -> (s: String) {
        let mut s = String::new();
        match &self.prev {
            None => {
                if self.args.is_empty() {
                    s.append("[");
                    push_decimal(&mut s, self.tt.code());
                    s.append("]");
                } else {
                    open_wrapped(&mut s, self.tt.code());
                    push_quoted(&mut s, self.args);
                    s.append("]]");
                }
            },
            Some(prev_term) => {
                let pr = prev_term.build();
                open_wrapped(&mut s, self.tt.code());
                s.append(pr.as_str());
                if !self.args.is_empty() {
                    s.append(", ");
                    push_quoted(&mut s, self.args);
                }
                s.append("]]");
            },
        }
        assert(s@ =~= self.spec_build());
        s
    }
}

// ------------------------------------------------------------------
// The root, databases and tables
// ------------------------------------------------------------------

/// The root of every query: holds the connection queries are run on, if
/// one was given.
pub struct R<S> {
    pub connection: Option<Connection<S>>,
}

impl<S> R<S> {
    /// A root with no connection.
    pub fn new() -> (r: R<S>)
        ensures
            r.connection is None,
    {
        R { connection: None }
    }

    /// Makes `conn` the connection of this root, in place of any other.
    pub fn use_connection(&mut self, conn: Connection<S>)
        ensures
            final(self).connection == Some(conn),
    {
        self.connection = Some(conn);
    }

    /// One step of connecting the root's connection (see
    /// `Connection::connect`); without a connection, connecting fails at
    /// once.
    pub fn connect(&mut self, event: ConnectEvent<S>) -> (action: ConnectAction)
        ensures
            old(self).connection is None ==> final(self).connection is None && action
                is NoConnection,
            old(self).connection matches Some(pre) ==> final(self).connection matches Some(
                post,
            ) && connect_step(pre, post, event, action),
    {
        match &mut self.connection {
            None => ConnectAction::NoConnection,
            Some(c) => c.connect(event),
        }
    }

    /// The database named `db_name`.
    pub fn db<'a>(&'a mut self, db_name: &'static str) -> (db: DB<'a, S>)
        ensures
            db.spec_build() == db_text(TermType::DB, db_name@),
            db.spec_build() == "[14, [\""@ + db_name@ + "\"]]"@,
            db.spec_root() == *old(self),
            *final(self) == *old(self),
    {
        proof {
            lemma_db_text(db_name@);
        }
        let db = DB { r: self, tt: TermType::DB, name: db_name };
        db
    }
}

/// A database term; tables are reached from it. It holds the root it was
/// reached from, which stays borrowed, and unchanged, while the term lives.
pub struct DB<'a, S> {
    r: &'a R<S>,
    tt: TermType,
    name: &'static str,
}

impl<'a, S> DB<'a, S> {
    /// The root this database was reached from.
    pub closed spec fn spec_root(&self) -> R<S> {
        *self.r
    }

    /// The table named `table_name` in this database.
    pub fn table(self, table_name: &'static str) -> (t: Table<'a, S>)
        ensures
            t.spec_build() == table_text(TermType::TABLE, self.spec_build(), table_name@),
            t.spec_build() == "[15, ["@ + self.spec_build() + ", \""@ + table_name@ + "\"]]"@,
            t.spec_root() == self.spec_root(),
    {
        proof {
            lemma_table_text(self.spec_build(), table_name@);
        }
        Table::new(self, table_name)
    }

    /// The list of the tables of this database.
    pub fn table_list(self) -> (t: Term<DB<'a, S>>)
        ensures
            t.spec_build() == term_text(TermType::TABLE_LIST, ""@, Some(self.spec_build())),
            t.spec_build() == "[62, ["@ + self.spec_build() + "]]"@,
    {
        proof {
            reveal_strlit("");
            reveal_strlit("[62, [");
            reveal_strlit("]]");
            lemma_term_text_without_argument(TermType::TABLE_LIST, self.spec_build());
            assert(decimal(62) == seq!['6', '2']) by {
                assert(decimal(6) == seq!['6']);
            }
            assert(term_text(TermType::TABLE_LIST, ""@, Some(self.spec_build())) =~= "[62, ["@
                + self.spec_build() + "]]"@);
        }
        Term { tt: TermType::TABLE_LIST, args: "", prev: Some(Box::new(self)) }
    }

    /// Creates the table named `table_name` in this database.
    pub fn table_create(self, table_name: &'static str) -> (t: Term<DB<'a, S>>)
        ensures
            t.spec_build() == term_text(TermType::TABLE_CREATE, table_name@, Some(self.spec_build())),
            table_name@.len() > 0 ==> t.spec_build() == "[60, ["@ + self.spec_build() + ", \""@
                + table_name@ + "\"]]"@,
            table_name@.len() == 0 ==> t.spec_build() == "[60, ["@ + self.spec_build() + "]]"@,
    {
        proof {
            reveal_strlit("");
            reveal_strlit("[60, [");
            reveal_strlit("[");
            reveal_strlit(", [");
            reveal_strlit(", \"");
            reveal_strlit("\"]]");
            reveal_strlit("]]");
            assert(decimal(60) == seq!['6', '0']) by {
                assert(decimal(6) == seq!['6']);
            }
            if table_name@.len() > 0 {
                lemma_term_text_with_argument(TermType::TABLE_CREATE, table_name@, self.spec_build());
                assert(term_text(TermType::TABLE_CREATE, table_name@, Some(self.spec_build()))
                    =~= "[60, ["@ + self.spec_build() + ", \""@ + table_name@ + "\"]]"@);
            } else {
                assert(table_name@ =~= ""@);
                lemma_term_text_without_argument(TermType::TABLE_CREATE, self.spec_build());
                assert(term_text(TermType::TABLE_CREATE, table_name@, Some(self.spec_build()))
                    =~= "[60, ["@ + self.spec_build() + "]]"@);
            }
        }
        Term { tt: TermType::TABLE_CREATE, args: table_name, prev: Some(Box::new(self)) }
    }
}

impl<'a, S> RqlQuery for DB<'a, S> {
    closed spec fn spec_build(&self) -> Seq<char> {
        db_text(self.tt, self.name@)
    }

    fn build(&self) -> (s: String) {
        let mut s = String::new();
        open_wrapped(&mut s, self.tt.code());
        push_quoted(&mut s, self.name);
        s.append("]]");
        assert(s@ =~= self.spec_build());
        s
    }
}

/// A table term, in a database.
pub struct Table<'a, S> {
    db: DB<'a, S>,
    tt: TermType,
    args: &'static str,
}

impl<'a, S> Table<'a, S> {
    /// The root this table was reached from.
    pub closed spec fn spec_root(&self) -> R<S> {
        self.db.spec_root()
    }

    /// The table named `args` in the database `db`.
    pub fn new(db: DB<'a, S>, args: &'static str) -> (t: Table<'a, S>)
        ensures
            t.spec_build() == table_text(TermType::TABLE, db.spec_build(), args@),
            t.spec_build() == "[15, ["@ + db.spec_build() + ", \""@ + args@ + "\"]]"@,
            t.spec_root() == db.spec_root(),
    {
        proof {
            lemma_table_text(db.spec_build(), args@);
        }
        let t = Table { db: db, tt: TermType::TABLE, args: args };
        t
    }
}

impl<'a, S> RqlQuery for Table<'a, S> {
    closed spec fn spec_build(&self) -> Seq<char> {
        table_text(self.tt, self.db.spec_build(), self.args@)
    }

    fn build(&self) -> (s: String) {
        let db_expr = self.db.build();
        let mut s = String::new();
        open_wrapped(&mut s, self.tt.code());
        s.append(db_expr.as_str());
        s.append(", ");
        push_quoted(&mut s, self.args);
        s.append("]]");
        assert(s@ =~= self.spec_build());
        s
    }
}

} // verus!
