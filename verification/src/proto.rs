//! Numeric codes of the RethinkDB protocol (ql2).

use vstd::prelude::*;

verus! {

/// Protocol version magic numbers, sent first in the handshake.
#[allow(non_camel_case_types)]
pub enum Version {
    V0_1,
    /// Authorization key during handshake
    V0_2,
    /// Authorization key and protocol during handshake
    V0_3,
    V0_4,
}

impl Version {
    /// The magic number of this version.
    pub open spec fn spec_code(&self) -> u32 {
        match self {
            Version::V0_1 => 0x3f61ba36,
            Version::V0_2 => 0x723081e1,
            Version::V0_3 => 0x5f75e83e,
            Version::V0_4 => 0x400c2d20,
        }
    }

    /// The magic number of this version, as it stands on the wire.
    pub fn code(&self) -> (c: u32)
        ensures
            c == self.spec_code(),
    {
        match self {
            Version::V0_1 => 0x3f61ba36,
            Version::V0_2 => 0x723081e1,
            Version::V0_3 => 0x5f75e83e,
            Version::V0_4 => 0x400c2d20,
        }
    }
}

/// Each Version stands on the wire for its number in the protocol
/// definition (ql2), whatever other variants stand for.
pub proof fn lemma_version_codes()
    ensures
        Version::V0_1.spec_code() == 0x3f61ba36,
        Version::V0_2.spec_code() == 0x723081e1,
        Version::V0_3.spec_code() == 0x5f75e83e,
        Version::V0_4.spec_code() == 0x400c2d20,
{
}
/// Distinct Version variants have distinct codes: a code names one variant.
pub proof fn lemma_version_code_injective(a: Version, b: Version)
    requires
        a.spec_code() == b.spec_code(),
    ensures
        a == b,
{
}

/// Wire protocols a client may ask for in the handshake.
#[allow(non_camel_case_types)]
pub enum Protocol {
    PROTOBUF,
    JSON,
}

impl Protocol {
    /// The magic number of this protocol.
    pub open spec fn spec_code(&self) -> u32 {
        match self {
            Protocol::PROTOBUF => 0x271ffc41,
            Protocol::JSON => 0x7e6970c7,
        }
    }

    /// The magic number of this protocol, as it stands on the wire.
    pub fn code(&self) -> (c: u32)
        ensures
            c == self.spec_code(),
    {
        match self {
            Protocol::PROTOBUF => 0x271ffc41,
            Protocol::JSON => 0x7e6970c7,
        }
    }
}

/// Each Protocol stands on the wire for its number in the protocol
/// definition (ql2), whatever other variants stand for.
pub proof fn lemma_protocol_codes()
    ensures
        Protocol::PROTOBUF.spec_code() == 0x271ffc41,
        Protocol::JSON.spec_code() == 0x7e6970c7,
{
}
/// Distinct Protocol variants have distinct codes: a code names one variant.
pub proof fn lemma_protocol_code_injective(a: Protocol, b: Protocol)
    requires
        a.spec_code() == b.spec_code(),
    ensures
        a == b,
{
}

/// Kinds of query a client sends.
#[allow(non_camel_case_types)]
#[derive(Copy, Clone)]
pub enum QueryType {
    START,
    CONTINUE,
    STOP,
    NOREPLY_WAIT,
    SERVER_INFO,
}

impl QueryType {
    /// The code of this query type.
    pub open spec fn spec_code(&self) -> u32 {
        match self {
            QueryType::START => 1,
            QueryType::CONTINUE => 2,
            QueryType::STOP => 3,
            QueryType::NOREPLY_WAIT => 4,
            QueryType::SERVER_INFO => 5,
        }
    }

    /// The code of this query type, as it stands on the wire.
    pub fn code(&self) -> (c: u32)
        ensures
            c == self.spec_code(),
    {
        match self {
            QueryType::START => 1,
            QueryType::CONTINUE => 2,
            QueryType::STOP => 3,
            QueryType::NOREPLY_WAIT => 4,
            QueryType::SERVER_INFO => 5,
        }
    }
}

/// Each QueryType stands on the wire for its number in the protocol
/// definition (ql2), whatever other variants stand for.
pub proof fn lemma_query_type_codes()
    ensures
        QueryType::START.spec_code() == 1,
        QueryType::CONTINUE.spec_code() == 2,
        QueryType::STOP.spec_code() == 3,
        QueryType::NOREPLY_WAIT.spec_code() == 4,
        QueryType::SERVER_INFO.spec_code() == 5,
{
}
/// Distinct QueryType variants have distinct codes: a code names one variant.
pub proof fn lemma_query_type_code_injective(a: QueryType, b: QueryType)
    requires
        a.spec_code() == b.spec_code(),
    ensures
        a == b,
{
}

/// Where in a term an error occurred.
#[allow(non_camel_case_types)]
pub enum FrameType {
    /// Error occured in a positional argument.
    POS,
    /// Error occured in an optional argument.
    OPT,
}

impl FrameType {
    /// The code of this frame type.
    pub open spec fn spec_code(&self) -> u32 {
        match self {
            FrameType::POS => 1,
            FrameType::OPT => 2,
        }
    }

    /// The code of this frame type, as it stands on the wire.
    pub fn code(&self) -> (c: u32)
        ensures
            c == self.spec_code(),
    {
        match self {
            FrameType::POS => 1,
            FrameType::OPT => 2,
        }
    }
}

/// Each FrameType stands on the wire for its number in the protocol
/// definition (ql2), whatever other variants stand for.
pub proof fn lemma_frame_type_codes()
    ensures
        FrameType::POS.spec_code() == 1,
        FrameType::OPT.spec_code() == 2,
{
}
/// Distinct FrameType variants have distinct codes: a code names one variant.
pub proof fn lemma_frame_type_code_injective(a: FrameType, b: FrameType)
    requires
        a.spec_code() == b.spec_code(),
    ensures
        a == b,
{
}

/// Kinds of response the server sends.
#[allow(non_camel_case_types)]
pub enum ResponseType {
    /// These response types indicate success.
    /// Query returned a single RQL datatype.
    SUCCESS_ATOM,
    /// Query returned a sequence of RQL datatypes.
    SUCCESS_SEQUENCE,
    /// Query returned a partial sequence of RQL
    /// datatypes.  If you send a [CONTINUE] query with
    /// the same token as this response, you will get
    /// more of the sequence.  Keep sending [CONTINUE]
    /// queries until you get back [SUCCESS_SEQUENCE].
    SUCCESS_PARTIAL,
    /// A [NOREPLY_WAIT] query completed.
    WAIT_COMPLETE,
    /// The data for a [SERVER_INFO] request.  This is
    /// the same as `SUCCESS_ATOM` except that there will
    /// never be profiling data.
    SERVER_INFO,
    /// These response types indicate failure.
    /// Means the client is buggy.  An example is if the
    /// client sends a malformed protobuf, or tries to
    /// send [CONTINUE] for an unknown token.
    CLIENT_ERROR,
    /// Means the query failed during parsing or type
    /// checking.  For example, if you pass too many
    /// arguments to a function.
    COMPILE_ERROR,
    /// Means the query failed at runtime.  An example is
    /// if you add together two values from a table, but
    /// they turn out at runtime to be booleans rather
    /// than numbers.
    RUNTIME_ERROR,
}

impl ResponseType {
    /// The code of this response type.
    pub open spec fn spec_code(&self) -> u32 {
        match self {
            ResponseType::SUCCESS_ATOM => 1,
            ResponseType::SUCCESS_SEQUENCE => 2,
            ResponseType::SUCCESS_PARTIAL => 3,
            ResponseType::WAIT_COMPLETE => 4,
            ResponseType::SERVER_INFO => 5,
            ResponseType::CLIENT_ERROR => 16,
            ResponseType::COMPILE_ERROR => 17,
            ResponseType::RUNTIME_ERROR => 18,
        }
    }

    /// The code of this response type, as it stands on the wire.
    pub fn code(&self) -> (c: u32)
        ensures
            c == self.spec_code(),
    {
        match self {
            ResponseType::SUCCESS_ATOM => 1,
            ResponseType::SUCCESS_SEQUENCE => 2,
            ResponseType::SUCCESS_PARTIAL => 3,
            ResponseType::WAIT_COMPLETE => 4,
            ResponseType::SERVER_INFO => 5,
            ResponseType::CLIENT_ERROR => 16,
            ResponseType::COMPILE_ERROR => 17,
            ResponseType::RUNTIME_ERROR => 18,
        }
    }
}

/// Each ResponseType stands on the wire for its number in the protocol
/// definition (ql2), whatever other variants stand for.
pub proof fn lemma_response_type_codes()
    ensures
        ResponseType::SUCCESS_ATOM.spec_code() == 1,
        ResponseType::SUCCESS_SEQUENCE.spec_code() == 2,
        ResponseType::SUCCESS_PARTIAL.spec_code() == 3,
        ResponseType::WAIT_COMPLETE.spec_code() == 4,
        ResponseType::SERVER_INFO.spec_code() == 5,
        ResponseType::CLIENT_ERROR.spec_code() == 16,
        ResponseType::COMPILE_ERROR.spec_code() == 17,
        ResponseType::RUNTIME_ERROR.spec_code() == 18,
{
}
/// Distinct ResponseType variants have distinct codes: a code names one variant.
pub proof fn lemma_response_type_code_injective(a: ResponseType, b: ResponseType)
    requires
        a.spec_code() == b.spec_code(),
    ensures
        a == b,
{
}

/// Kinds of runtime error, given with a `RUNTIME_ERROR` response.
#[allow(non_camel_case_types)]
pub enum ErrorType {
    INTERNAL,
    RESOURCE_LIMIT,
    QUERY_LOGIC,
    NON_EXISTENCE,
    OP_FAILED,
    OP_INDETERMINATE,
    USER,
}

impl ErrorType {
    /// The code of this error type.
    pub open spec fn spec_code(&self) -> u32 {
        match self {
            ErrorType::INTERNAL => 1000000,
            ErrorType::RESOURCE_LIMIT => 2000000,
            ErrorType::QUERY_LOGIC => 3000000,
            ErrorType::NON_EXISTENCE => 3100000,
            ErrorType::OP_FAILED => 4100000,
            ErrorType::OP_INDETERMINATE => 4200000,
            ErrorType::USER => 5000000,
        }
    }

    /// The code of this error type, as it stands on the wire.
    pub fn code(&self) -> (c: u32)
        ensures
            c == self.spec_code(),
    {
        match self {
            ErrorType::INTERNAL => 1000000,
            ErrorType::RESOURCE_LIMIT => 2000000,
            ErrorType::QUERY_LOGIC => 3000000,
            ErrorType::NON_EXISTENCE => 3100000,
            ErrorType::OP_FAILED => 4100000,
            ErrorType::OP_INDETERMINATE => 4200000,
            ErrorType::USER => 5000000,
        }
    }
}

/// Each ErrorType stands on the wire for its number in the protocol
/// definition (ql2), whatever other variants stand for.
pub proof fn lemma_error_type_codes()
    ensures
        ErrorType::INTERNAL.spec_code() == 1000000,
        ErrorType::RESOURCE_LIMIT.spec_code() == 2000000,
        ErrorType::QUERY_LOGIC.spec_code() == 3000000,
        ErrorType::NON_EXISTENCE.spec_code() == 3100000,
        ErrorType::OP_FAILED.spec_code() == 4100000,
        ErrorType::OP_INDETERMINATE.spec_code() == 4200000,
        ErrorType::USER.spec_code() == 5000000,
{
}
/// Distinct ErrorType variants have distinct codes: a code names one variant.
pub proof fn lemma_error_type_code_injective(a: ErrorType, b: ErrorType)
    requires
        a.spec_code() == b.spec_code(),
    ensures
        a == b,
{
}

/// Notes the server attaches to a streamed response.
#[allow(non_camel_case_types)]
pub enum ResponseNote {
    /// The stream is a changefeed stream (e.g. `r.table('test').changes()`).
    SEQUENCE_FEED,
    /// The stream is a point changefeed stream
    /// (e.g. `r.table('test').get(0).changes()`).
    ATOM_FEED,
    /// The stream is an order_by_limit changefeed stream
    /// (e.g. `r.table('test').order_by(index: 'id').limit(5).changes()`).
    ORDER_BY_LIMIT_FEED,
    /// The stream is a union of multiple changefeed types that can't be
    /// collapsed to a single type
    /// (e.g. `r.table('test').changes().union(r.table('test').get(0).changes())`).
    UNIONED_FEED,
    /// The stream is a changefeed stream and includes notes on what state
    /// the changefeed stream is in (e.g. objects of the form `{state:
    /// 'initializing'}`).
    INCLUDES_STATES,
}

impl ResponseNote {
    /// The code of this note.
    pub open spec fn spec_code(&self) -> u32 {
        match self {
            ResponseNote::SEQUENCE_FEED => 1,
            ResponseNote::ATOM_FEED => 2,
            ResponseNote::ORDER_BY_LIMIT_FEED => 3,
            ResponseNote::UNIONED_FEED => 4,
            ResponseNote::INCLUDES_STATES => 5,
        }
    }

    /// The code of this note, as it stands on the wire.
    pub fn code(&self) -> (c: u32)
        ensures
            c == self.spec_code(),
    {
        match self {
            ResponseNote::SEQUENCE_FEED => 1,
            ResponseNote::ATOM_FEED => 2,
            ResponseNote::ORDER_BY_LIMIT_FEED => 3,
            ResponseNote::UNIONED_FEED => 4,
            ResponseNote::INCLUDES_STATES => 5,
        }
    }
}

/// Each ResponseNote stands on the wire for its number in the protocol
/// definition (ql2), whatever other variants stand for.
pub proof fn lemma_response_note_codes()
    ensures
        ResponseNote::SEQUENCE_FEED.spec_code() == 1,
        ResponseNote::ATOM_FEED.spec_code() == 2,
        ResponseNote::ORDER_BY_LIMIT_FEED.spec_code() == 3,
        ResponseNote::UNIONED_FEED.spec_code() == 4,
        ResponseNote::INCLUDES_STATES.spec_code() == 5,
{
}
/// Distinct ResponseNote variants have distinct codes: a code names one variant.
pub proof fn lemma_response_note_code_injective(a: ResponseNote, b: ResponseNote)
    requires
        a.spec_code() == b.spec_code(),
    ensures
        a == b,
{
}

/// Kinds of RQL datum.
#[allow(non_camel_case_types)]
pub enum DatumType {
    R_NULL,
    R_BOOL,
    /// a double
    R_NUM,
    R_STR,
    R_ARRAY,
    R_OBJECT,
    /// This [DatumType] will only be used if [accepts_r_json] is
    /// set to [true] in [Query].  [r_str] will be filled with a
    /// JSON encoding of the [Datum].
    /// uses r_str
    R_JSON,
}

impl DatumType {
    /// The code of this datum type.
    pub open spec fn spec_code(&self) -> u32 {
        match self {
            DatumType::R_NULL => 1,
            DatumType::R_BOOL => 2,
            DatumType::R_NUM => 3,
            DatumType::R_STR => 4,
            DatumType::R_ARRAY => 5,
            DatumType::R_OBJECT => 6,
            DatumType::R_JSON => 7,
        }
    }

    /// The code of this datum type, as it stands on the wire.
    pub fn code(&self) -> (c: u32)
        ensures
            c == self.spec_code(),
    {
        match self {
            DatumType::R_NULL => 1,
            DatumType::R_BOOL => 2,
            DatumType::R_NUM => 3,
            DatumType::R_STR => 4,
            DatumType::R_ARRAY => 5,
            DatumType::R_OBJECT => 6,
            DatumType::R_JSON => 7,
        }
    }
}

/// Each DatumType stands on the wire for its number in the protocol
/// definition (ql2), whatever other variants stand for.
pub proof fn lemma_datum_type_codes()
    ensures
        DatumType::R_NULL.spec_code() == 1,
        DatumType::R_BOOL.spec_code() == 2,
        DatumType::R_NUM.spec_code() == 3,
        DatumType::R_STR.spec_code() == 4,
        DatumType::R_ARRAY.spec_code() == 5,
        DatumType::R_OBJECT.spec_code() == 6,
        DatumType::R_JSON.spec_code() == 7,
{
}
/// Distinct DatumType variants have distinct codes: a code names one variant.
pub proof fn lemma_datum_type_code_injective(a: DatumType, b: DatumType)
    requires
        a.spec_code() == b.spec_code(),
    ensures
        a == b,
{
}

/// Kinds of ReQL term: the first element of every serialized term.
#[allow(non_camel_case_types)]
#[derive(Copy, Clone)]
pub enum TermType {
    /// A RQL datum, stored in `datum` below.
    DATUM,
    /// DATUM... -> ARRAY
    MAKE_ARRAY,
    /// Evaluate the terms in [optargs] and make an object
    /// {...} -> OBJECT
    MAKE_OBJ,
    /// * Compound types
    /// Takes an integer representing a variable and returns the value stored
    /// in that variable.  It's the responsibility of the client to translate
    /// from their local representation of a variable to a unique _non-negative_
    /// integer for that variable.  (We do it this way instead of letting
    /// clients provide variable names as strings to discourage
    /// variable-capturing client libraries, and because it's more efficient
    /// on the wire.)
    /// !NUMBER -> DATUM
    VAR,
    /// Takes some javascript code and executes it.
    /// STRING {timeout: !NUMBER} -> DATUM |
    /// STRING {timeout: !NUMBER} -> Function(*)
    JAVASCRIPT,
    /// () -> DATUM
    UUID,
    /// Takes an HTTP URL and gets it.  If the get succeeds and
    /// returns valid JSON, it is converted into a DATUM
    /// STRING {data: OBJECT | STRING,
    /// timeout: !NUMBER,
    /// method: STRING,
    /// params: OBJECT,
    /// header: OBJECT | ARRAY,
    /// attempts: NUMBER,
    /// redirects: NUMBER,
    /// verify: BOOL,
    /// page: FUNC | STRING,
    /// page_limit: NUMBER,
    /// auth: OBJECT,
    /// result_format: STRING,
    /// } -> STRING | STREAM
    HTTP,
    /// Takes a string and throws an error with that message.
    /// Inside of a `default` block, you can omit the first
    /// argument to rethrow whatever error you catch (this is most
    /// useful as an argument to the `default` filter optarg).
    /// STRING -> Error | -> Error
    ERROR,
    /// Takes nothing and returns a reference to the implicit variable.
    /// -> DATUM
    IMPLICIT_VAR,
    /// * Data Operators
    /// Returns a reference to a database.
    /// STRING -> Database
    DB,
    /// Returns a reference to a table.
    /// Database, STRING, {read_mode:STRING, identifier_format:STRING} -> Table
    /// STRING, {read_mode:STRING, identifier_format:STRING} -> Table
    TABLE,
    /// Gets a single element from a table by its primary or a secondary key.
    /// Table, STRING -> SingleSelection | Table, NUMBER -> SingleSelection |
    /// Table, STRING -> NULL            | Table, NUMBER -> NULL |
    GET,
    /// Table, DATUM..., {index:!STRING} => ARRAY
    GET_ALL,
    /// Simple DATUM Ops
    /// DATUM... -> BOOL
    EQ,
    /// DATUM... -> BOOL
    NE,
    /// DATUM... -> BOOL
    LT,
    /// DATUM... -> BOOL
    LE,
    /// DATUM... -> BOOL
    GT,
    /// DATUM... -> BOOL
    GE,
    /// BOOL -> BOOL
    NOT,
    /// ADD can either add two numbers or concatenate two arrays.
    /// NUMBER... -> NUMBER | STRING... -> STRING
    ADD,
    /// NUMBER... -> NUMBER
    SUB,
    /// NUMBER... -> NUMBER
    MUL,
    /// NUMBER... -> NUMBER
    DIV,
    /// NUMBER, NUMBER -> NUMBER
    MOD,
    /// NUMBER -> NUMBER
    FLOOR,
    /// NUMBER -> NUMBER
    CEIL,
    /// NUMBER -> NUMBER
    ROUND,
    /// DATUM Array Ops
    /// Append a single element to the end of an array (like `snoc`).
    /// ARRAY, DATUM -> ARRAY
    APPEND,
    /// Prepend a single element to the end of an array (like `cons`).
    /// ARRAY, DATUM -> ARRAY
    PREPEND,
    /// Remove the elements of one array from another array.
    /// ARRAY, ARRAY -> ARRAY
    DIFFERENCE,
    /// DATUM Set Ops
    /// Set ops work on arrays. They don't use actual sets and thus have
    /// performance characteristics you would expect from arrays rather than
    /// from sets. All set operations have the post condition that they
    /// array they return contains no duplicate values.
    /// ARRAY, DATUM -> ARRAY
    SET_INSERT,
    /// ARRAY, ARRAY -> ARRAY
    SET_INTERSECTION,
    /// ARRAY, ARRAY -> ARRAY
    SET_UNION,
    /// ARRAY, ARRAY -> ARRAY
    SET_DIFFERENCE,
    /// Sequence, NUMBER, NUMBER -> Sequence
    SLICE,
    /// Sequence, NUMBER -> Sequence
    SKIP,
    /// Sequence, NUMBER -> Sequence
    LIMIT,
    /// Sequence, DATUM -> Sequence | Sequence, Function(1) -> Sequence
    OFFSETS_OF,
    /// Sequence, (DATUM | Function(1))... -> BOOL
    CONTAINS,
    /// Stream/Object Ops
    /// Get a particular field from an object, or map that over a
    /// sequence.
    /// OBJECT, STRING -> DATUM
    /// | Sequence, STRING -> Sequence
    GET_FIELD,
    /// Return an array containing the keys of the object.
    /// OBJECT -> ARRAY
    KEYS,
    /// Return an array containing the values of the object.
    /// OBJECT -> ARRAY
    VALUES,
    /// Creates an object
    /// STRING, DATUM, ... -> OBJECT
    OBJECT,
    /// Check whether an object contains all the specified fields,
    /// or filters a sequence so that all objects inside of it
    /// contain all the specified fields.
    /// OBJECT, Pathspec... -> BOOL
    HAS_FIELDS,
    /// x.with_fields(...) <=> x.has_fields(...).pluck(...)
    /// Sequence, Pathspec... -> Sequence
    WITH_FIELDS,
    /// Get a subset of an object by selecting some attributes to preserve,
    /// or map that over a sequence.  (Both pick and pluck, polymorphic.)
    /// Sequence, Pathspec... -> Sequence | OBJECT, Pathspec... -> OBJECT
    PLUCK,
    /// Get a subset of an object by selecting some attributes to discard, or
    /// map that over a sequence.  (Both unpick and without, polymorphic.)
    /// Sequence, Pathspec... -> Sequence | OBJECT, Pathspec... -> OBJECT
    WITHOUT,
    /// Merge objects (right-preferential)
    /// OBJECT... -> OBJECT | Sequence -> Sequence
    MERGE,
    /// Sequence Ops
    /// Get all elements of a sequence between two values.
    /// Half-open by default, but the openness of either side can be
    /// changed by passing 'closed' or 'open for `right_bound` or
    /// `left_bound`.
    /// Deprecated version of between, which allows `null` to specify unboundedness
    /// With the newer version, clients should use `r.minval` and `r.maxval` for unboundedness
    BETWEEN_DEPRECATED,
    /// StreamSelection, DATUM, DATUM, {index:!STRING, right_bound:STRING, left_bound:STRING} -> StreamSelection
    BETWEEN,
    /// Sequence, Function(2) -> DATUM
    REDUCE,
    /// Sequence, Function(1) -> Sequence
    /// The arity of the function should be
    /// Sequence..., Function(sizeof...(Sequence)) -> Sequence
    MAP,
    /// Filter a sequence with either a function or a shortcut
    /// object (see API docs for details).  The body of FILTER is
    /// wrapped in an implicit `.default(false)`, and you can
    /// change the default value by specifying the `default`
    /// optarg.  If you make the default `r.error`, all errors
    /// caught by `default` will be rethrown as if the `default`
    /// did not exist.
    /// Sequence, Function(1), {default:DATUM} -> Sequence |
    /// Sequence, OBJECT, {default:DATUM} -> Sequence
    FILTER,
    /// Map a function over a sequence and then concatenate the results together.
    /// Sequence, Function(1) -> Sequence
    CONCAT_MAP,
    /// Order a sequence based on one or more attributes.
    /// Sequence, (!STRING | sort order)..., {index: (!STRING | sort order)} -> Sequence
    ORDER_BY,
    /// Get all distinct elements of a sequence (like `uniq`).
    /// Sequence -> Sequence
    DISTINCT,
    /// Count the number of elements in a sequence, or only the elements that match
    /// a given filter.
    /// Sequence -> NUMBER | Sequence, DATUM -> NUMBER | Sequence, Function(1) -> NUMBER
    COUNT,
    /// Sequence -> BOOL
    IS_EMPTY,
    /// Take the union of multiple sequences (preserves duplicate elements! (use distinct)).
    /// Sequence... -> Sequence
    UNION,
    /// Get the Nth element of a sequence.
    /// Sequence, NUMBER -> DATUM
    NTH,
    /// do NTH or GET_FIELD depending on target object
    /// Sequence | OBJECT, NUMBER | STRING -> DATUM
    BRACKET,
    /// Sequence, Sequence, Function(2) -> Sequence
    INNER_JOIN,
    /// Sequence, Sequence, Function(2) -> Sequence
    OUTER_JOIN,
    /// An inner-join that does an equality comparison on two attributes.
    /// Sequence, !STRING, Sequence, {index:!STRING} -> Sequence
    EQ_JOIN,
    /// Sequence -> Sequence
    ZIP,
    /// -> Sequence                        [0, +inf)
    /// NUMBER -> Sequence                 [0, a)
    /// NUMBER, NUMBER -> Sequence         [a, b)
    RANGE,
    /// Array Ops
    /// Insert an element in to an array at a given index.
    /// ARRAY, NUMBER, DATUM -> ARRAY
    INSERT_AT,
    /// Remove an element at a given index from an array.
    /// ARRAY, NUMBER -> ARRAY |
    /// ARRAY, NUMBER, NUMBER -> ARRAY
    DELETE_AT,
    /// Change the element at a given index of an array.
    /// ARRAY, NUMBER, DATUM -> ARRAY
    CHANGE_AT,
    /// Splice one array in to another array.
    /// ARRAY, NUMBER, ARRAY -> ARRAY
    SPLICE_AT,
    /// * Type Ops
    /// Coerces a datum to a named type (e.g. "bool").
    /// If you previously used `stream_to_array`, you should use this instead
    /// with the type "array".
    /// Top, STRING -> Top
    COERCE_TO,
    /// Returns the named type of a datum (e.g. TYPE_OF(true) = "BOOL")
    /// Top -> STRING
    TYPE_OF,
    /// * Write Ops (the OBJECTs contain data about number of errors etc.)
    /// Updates all the rows in a selection.  Calls its Function with the row
    /// to be updated, and then merges the result of that call.
    /// StreamSelection, Function(1), {non_atomic:BOOL, durability:STRING, return_changes:BOOL} -> OBJECT |
    /// SingleSelection, Function(1), {non_atomic:BOOL, durability:STRING, return_changes:BOOL} -> OBJECT |
    /// StreamSelection, OBJECT,      {non_atomic:BOOL, durability:STRING, return_changes:BOOL} -> OBJECT |
    /// SingleSelection, OBJECT,      {non_atomic:BOOL, durability:STRING, return_changes:BOOL} -> OBJECT
    UPDATE,
    /// Deletes all the rows in a selection.
    /// StreamSelection, {durability:STRING, return_changes:BOOL} -> OBJECT | SingleSelection -> OBJECT
    DELETE,
    /// Replaces all the rows in a selection.  Calls its Function with the row
    /// to be replaced, and then discards it and stores the result of that
    /// call.
    /// StreamSelection, Function(1), {non_atomic:BOOL, durability:STRING, return_changes:BOOL} -> OBJECT | SingleSelection, Function(1), {non_atomic:BOOL, durability:STRING, return_changes:BOOL} -> OBJECT
    REPLACE,
    /// Inserts into a table.  If `conflict` is replace, overwrites
    /// entries with the same primary key.  If `conflict` is
    /// update, does an update on the entry.  If `conflict` is
    /// error, or is omitted, conflicts will trigger an error.
    /// Table, OBJECT, {conflict:STRING, durability:STRING, return_changes:BOOL} -> OBJECT | Table, Sequence, {conflict:STRING, durability:STRING, return_changes:BOOL} -> OBJECT
    INSERT,
    /// * Administrative OPs
    /// Creates a database with a particular name.
    /// STRING -> OBJECT
    DB_CREATE,
    /// Drops a database with a particular name.
    /// STRING -> OBJECT
    DB_DROP,
    /// Lists all the databases by name.  (Takes no arguments)
    /// -> ARRAY
    DB_LIST,
    /// Creates a table with a particular name in a particular
    /// database.  (You may omit the first argument to use the
    /// default database.)
    /// Database, STRING, {primary_key:STRING, shards:NUMBER, replicas:NUMBER, primary_replica_tag:STRING} -> OBJECT
    /// Database, STRING, {primary_key:STRING, shards:NUMBER, replicas:OBJECT, primary_replica_tag:STRING} -> OBJECT
    /// STRING, {primary_key:STRING, shards:NUMBER, replicas:NUMBER, primary_replica_tag:STRING} -> OBJECT
    /// STRING, {primary_key:STRING, shards:NUMBER, replicas:OBJECT, primary_replica_tag:STRING} -> OBJECT
    TABLE_CREATE,
    /// Drops a table with a particular name from a particular
    /// database.  (You may omit the first argument to use the
    /// default database.)
    /// Database, STRING -> OBJECT
    /// STRING -> OBJECT
    TABLE_DROP,
    /// Lists all the tables in a particular database.  (You may
    /// omit the first argument to use the default database.)
    /// Database -> ARRAY
    /// -> ARRAY
    TABLE_LIST,
    /// Returns the row in the `rethinkdb.table_config` or `rethinkdb.db_config` table
    /// that corresponds to the given database or table.
    /// Database -> SingleSelection
    /// Table -> SingleSelection
    CONFIG,
    /// Returns the row in the `rethinkdb.table_status` table that corresponds to the
    /// given table.
    /// Table -> SingleSelection
    STATUS,
    /// Called on a table, waits for that table to be ready for read/write operations.
    /// Called on a database, waits for all of the tables in the database to be ready.
    /// Returns the corresponding row or rows from the `rethinkdb.table_status` table.
    /// Table -> OBJECT
    /// Database -> OBJECT
    WAIT,
    /// Generates a new config for the given table, or all tables in the given database
    /// The `shards` and `replicas` arguments are required. If `emergency_repair` is
    /// specified, it will enter a completely different mode of repairing a table
    /// which has lost half or more of its replicas.
    /// Database|Table, {shards:NUMBER, replicas:NUMBER [,
    /// dry_run:BOOLEAN]
    /// } -> OBJECT
    /// Database|Table, {shards:NUMBER, replicas:OBJECT [,
    /// primary_replica_tag:STRING,
    /// nonvoting_replica_tags:ARRAY,
    /// dry_run:BOOLEAN]
    /// } -> OBJECT
    /// Table, {emergency_repair:STRING, dry_run:BOOLEAN} -> OBJECT
    RECONFIGURE,
    /// Balances the table's shards but leaves everything else the same. Can also be
    /// applied to an entire database at once.
    /// Table -> OBJECT
    /// Database -> OBJECT
    REBALANCE,
    /// Ensures that previously issued soft-durability writes are complete and
    /// written to disk.
    /// Table -> OBJECT
    SYNC,
    /// * Secondary indexes OPs
    /// Creates a new secondary index with a particular name and definition.
    /// Table, STRING, Function(1), {multi:BOOL} -> OBJECT
    INDEX_CREATE,
    /// Drops a secondary index with a particular name from the specified table.
    /// Table, STRING -> OBJECT
    INDEX_DROP,
    /// Lists all secondary indexes on a particular table.
    /// Table -> ARRAY
    INDEX_LIST,
    /// Gets information about whether or not a set of indexes are ready to
    /// be accessed. Returns a list of objects that look like this:
    /// {index:STRING, ready:BOOL[, progress:NUMBER]}
    /// Table, STRING... -> ARRAY
    INDEX_STATUS,
    /// Blocks until a set of indexes are ready to be accessed. Returns the
    /// same values INDEX_STATUS.
    /// Table, STRING... -> ARRAY
    INDEX_WAIT,
    /// Renames the given index to a new name
    /// Table, STRING, STRING, {overwrite:BOOL} -> OBJECT
    INDEX_RENAME,
    /// * Control Operators
    /// Calls a function on data
    /// Function(*), DATUM... -> DATUM
    FUNCALL,
    /// Executes its first argument, and returns its second argument if it
    /// got [true] or its third argument if it got [false] (like an `if`
    /// statement).
    /// BOOL, Top, Top -> Top
    BRANCH,
    /// Returns true if any of its arguments returns true (short-circuits).
    /// BOOL... -> BOOL
    OR,
    /// Returns true if all of its arguments return true (short-circuits).
    /// BOOL... -> BOOL
    AND,
    /// Calls its Function with each entry in the sequence
    /// and executes the array of terms that Function returns.
    /// Sequence, Function(1) -> OBJECT
    FOR_EACH,
    /// Special Terms
    /// An anonymous function.  Takes an array of numbers representing
    /// variables (see [VAR] above), and a [Term] to execute with those in
    /// scope.  Returns a function that may be passed an array of arguments,
    /// then executes the Term with those bound to the variable names.  The
    /// user will never construct this directly.  We use it internally for
    /// things like `map` which take a function.  The "arity" of a [Function] is
    /// the number of arguments it takes.
    /// For example, here's what `_X_.map{|x| x+2}` turns into:
    /// Term {
    /// type = MAP,
    /// args = [_X_,
    /// Term {
    /// type = Function,
    /// args = [Term {
    /// type = DATUM,
    /// datum = Datum {
    /// type = R_ARRAY,
    /// r_array = [Datum { type = R_NUM, r_num = 1, }],
    /// },
    /// },
    /// Term {
    /// type = ADD,
    /// args = [Term {
    /// type = VAR,
    /// args = [Term {
    /// type = DATUM,
    /// datum = Datum { type = R_NUM,
    /// r_num = 1},
    /// }],
    /// },
    /// Term {
    /// type = DATUM,
    /// datum = Datum { type = R_NUM, r_num = 2, },
    /// }],
    /// }],
    /// }],
    /// ARRAY, Top -> ARRAY -> Top
    FUNC,
    /// Indicates to ORDER_BY that this attribute is to be sorted in ascending order.
    /// !STRING -> sort order
    ASC,
    /// Indicates to ORDER_BY that this attribute is to be sorted in descending order.
    /// !STRING -> sort order
    DESC,
    /// Gets info about anything.  INFO is most commonly called on tables.
    /// Top -> OBJECT
    INFO,
    /// `a.match(b)` returns a match object if the string `a`
    /// matches the regular expression `b`.
    /// STRING, STRING -> DATUM
    MATCH,
    /// Change the case of a string.
    /// STRING -> STRING
    UPCASE,
    /// STRING -> STRING
    DOWNCASE,
    /// Select a number of elements from sequence with uniform distribution.
    /// Sequence, NUMBER -> Sequence
    SAMPLE,
    /// Evaluates its first argument.  If that argument returns
    /// NULL or throws an error related to the absence of an
    /// expected value (for instance, accessing a non-existent
    /// field or adding NULL to an integer), DEFAULT will either
    /// return its second argument or execute it if it's a
    /// function.  If the second argument is a function, it will be
    /// passed either the text of the error or NULL as its
    /// argument.
    /// Top, Top -> Top
    DEFAULT,
    /// Parses its first argument as a json string and returns it as a
    /// datum.
    /// STRING -> DATUM
    JSON,
    /// Returns the datum as a JSON string.
    /// N.B.: we would really prefer this be named TO_JSON and that exists as
    /// an alias in Python and JavaScript drivers, however it conflicts with the
    /// standard `to_json` method defined by Ruby's standard json library.
    /// DATUM -> STRING
    TO_JSON_STRING,
    /// Parses its first arguments as an ISO 8601 time and returns it as a
    /// datum.
    /// STRING -> PSEUDOTYPE(TIME)
    ISO8601,
    /// Prints a time as an ISO 8601 time.
    /// PSEUDOTYPE(TIME) -> STRING
    TO_ISO8601,
    /// Returns a time given seconds since epoch in UTC.
    /// NUMBER -> PSEUDOTYPE(TIME)
    EPOCH_TIME,
    /// Returns seconds since epoch in UTC given a time.
    /// PSEUDOTYPE(TIME) -> NUMBER
    TO_EPOCH_TIME,
    /// The time the query was received by the server.
    /// -> PSEUDOTYPE(TIME)
    NOW,
    /// Puts a time into an ISO 8601 timezone.
    /// PSEUDOTYPE(TIME), STRING -> PSEUDOTYPE(TIME)
    IN_TIMEZONE,
    /// a.during(b, c) returns whether a is in the range [b, c)
    /// PSEUDOTYPE(TIME), PSEUDOTYPE(TIME), PSEUDOTYPE(TIME) -> BOOL
    DURING,
    /// Retrieves the date portion of a time.
    /// PSEUDOTYPE(TIME) -> PSEUDOTYPE(TIME)
    DATE,
    /// x.time_of_day == x.date - x
    /// PSEUDOTYPE(TIME) -> NUMBER
    TIME_OF_DAY,
    /// Returns the timezone of a time.
    /// PSEUDOTYPE(TIME) -> STRING
    TIMEZONE,
    /// These access the various components of a time.
    /// PSEUDOTYPE(TIME) -> NUMBER
    YEAR,
    /// PSEUDOTYPE(TIME) -> NUMBER
    MONTH,
    /// PSEUDOTYPE(TIME) -> NUMBER
    DAY,
    /// PSEUDOTYPE(TIME) -> NUMBER
    DAY_OF_WEEK,
    /// PSEUDOTYPE(TIME) -> NUMBER
    DAY_OF_YEAR,
    /// PSEUDOTYPE(TIME) -> NUMBER
    HOURS,
    /// PSEUDOTYPE(TIME) -> NUMBER
    MINUTES,
    /// PSEUDOTYPE(TIME) -> NUMBER
    SECONDS,
    /// Construct a time from a date and optional timezone or a
    /// date+time and optional timezone.
    /// NUMBER, NUMBER, NUMBER, STRING -> PSEUDOTYPE(TIME) |
    /// NUMBER, NUMBER, NUMBER, NUMBER, NUMBER, NUMBER, STRING -> PSEUDOTYPE(TIME) |
    TIME,
    /// Constants for ISO 8601 days of the week.
    /// -> 1
    MONDAY,
    /// -> 2
    TUESDAY,
    /// -> 3
    WEDNESDAY,
    /// -> 4
    THURSDAY,
    /// -> 5
    FRIDAY,
    /// -> 6
    SATURDAY,
    /// -> 7
    SUNDAY,
    /// Constants for ISO 8601 months.
    /// -> 1
    JANUARY,
    /// -> 2
    FEBRUARY,
    /// -> 3
    MARCH,
    /// -> 4
    APRIL,
    /// -> 5
    MAY,
    /// -> 6
    JUNE,
    /// -> 7
    JULY,
    /// -> 8
    AUGUST,
    /// -> 9
    SEPTEMBER,
    /// -> 10
    OCTOBER,
    /// -> 11
    NOVEMBER,
    /// -> 12
    DECEMBER,
    /// Indicates to MERGE to replace, or remove in case of an empty literal, the
    /// other object rather than merge it.
    /// -> Merging
    /// JSON -> Merging
    LITERAL,
    /// SEQUENCE, STRING -> GROUPED_SEQUENCE | SEQUENCE, FUNCTION -> GROUPED_SEQUENCE
    GROUP,
    SUM,
    AVG,
    MIN,
    MAX,
    /// `str.split()` splits on whitespace
    /// `str.split(" ")` splits on spaces only
    /// `str.split(" ", 5)` splits on spaces with at most 5 results
    /// `str.split(nil, 5)` splits on whitespace with at most 5 results
    /// STRING -> ARRAY | STRING, STRING -> ARRAY | STRING, STRING, NUMBER -> ARRAY | STRING, NULL, NUMBER -> ARRAY
    SPLIT,
    /// GROUPED_DATA -> ARRAY
    UNGROUP,
    /// Takes a range of numbers and returns a random number within the range
    /// NUMBER, NUMBER {float:BOOL} -> DATUM
    RANDOM,
    /// TABLE -> STREAM
    CHANGES,
    /// ARRAY -> SPECIAL (used to splice arguments)
    ARGS,
    /// BINARY is client-only at the moment, it is not supported on the server
    /// STRING -> PSEUDOTYPE(BINARY)
    BINARY,
    /// OBJECT -> PSEUDOTYPE(GEOMETRY)
    GEOJSON,
    /// PSEUDOTYPE(GEOMETRY) -> OBJECT
    TO_GEOJSON,
    /// NUMBER, NUMBER -> PSEUDOTYPE(GEOMETRY)
    POINT,
    /// (ARRAY | PSEUDOTYPE(GEOMETRY))... -> PSEUDOTYPE(GEOMETRY)
    LINE,
    /// (ARRAY | PSEUDOTYPE(GEOMETRY))... -> PSEUDOTYPE(GEOMETRY)
    POLYGON,
    /// PSEUDOTYPE(GEOMETRY), PSEUDOTYPE(GEOMETRY) {geo_system:STRING, unit:STRING} -> NUMBER
    DISTANCE,
    /// PSEUDOTYPE(GEOMETRY), PSEUDOTYPE(GEOMETRY) -> BOOL
    INTERSECTS,
    /// PSEUDOTYPE(GEOMETRY), PSEUDOTYPE(GEOMETRY) -> BOOL
    INCLUDES,
    /// PSEUDOTYPE(GEOMETRY), NUMBER {num_vertices:NUMBER, geo_system:STRING, unit:STRING, fill:BOOL} -> PSEUDOTYPE(GEOMETRY)
    CIRCLE,
    /// TABLE, PSEUDOTYPE(GEOMETRY) {index:!STRING} -> StreamSelection
    GET_INTERSECTING,
    /// PSEUDOTYPE(GEOMETRY) -> PSEUDOTYPE(GEOMETRY)
    FILL,
    /// TABLE, PSEUDOTYPE(GEOMETRY) {index:!STRING, max_results:NUM, max_dist:NUM, geo_system:STRING, unit:STRING} -> ARRAY
    GET_NEAREST,
    /// PSEUDOTYPE(GEOMETRY), PSEUDOTYPE(GEOMETRY) -> PSEUDOTYPE(GEOMETRY)
    POLYGON_SUB,
    /// Constants for specifying key ranges
    MINVAL,
    MAXVAL,
}

impl TermType {
    /// The code of this term type.
    pub open spec fn spec_code(&self) -> u32 {
        match self {
            TermType::DATUM => 1,
            TermType::MAKE_ARRAY => 2,
            TermType::MAKE_OBJ => 3,
            TermType::VAR => 10,
            TermType::JAVASCRIPT => 11,
            TermType::UUID => 169,
            TermType::HTTP => 153,
            TermType::ERROR => 12,
            TermType::IMPLICIT_VAR => 13,
            TermType::DB => 14,
            TermType::TABLE => 15,
            TermType::GET => 16,
            TermType::GET_ALL => 78,
            TermType::EQ => 17,
            TermType::NE => 18,
            TermType::LT => 19,
            TermType::LE => 20,
            TermType::GT => 21,
            TermType::GE => 22,
            TermType::NOT => 23,
            TermType::ADD => 24,
            TermType::SUB => 25,
            TermType::MUL => 26,
            TermType::DIV => 27,
            TermType::MOD => 28,
            TermType::FLOOR => 183,
            TermType::CEIL => 184,
            TermType::ROUND => 185,
            TermType::APPEND => 29,
            TermType::PREPEND => 80,
            TermType::DIFFERENCE => 95,
            TermType::SET_INSERT => 88,
            TermType::SET_INTERSECTION => 89,
            TermType::SET_UNION => 90,
            TermType::SET_DIFFERENCE => 91,
            TermType::SLICE => 30,
            TermType::SKIP => 70,
            TermType::LIMIT => 71,
            TermType::OFFSETS_OF => 87,
            TermType::CONTAINS => 93,
            TermType::GET_FIELD => 31,
            TermType::KEYS => 94,
            TermType::VALUES => 186,
            TermType::OBJECT => 143,
            TermType::HAS_FIELDS => 32,
            TermType::WITH_FIELDS => 96,
            TermType::PLUCK => 33,
            TermType::WITHOUT => 34,
            TermType::MERGE => 35,
            TermType::BETWEEN_DEPRECATED => 36,
            TermType::BETWEEN => 182,
            TermType::REDUCE => 37,
            TermType::MAP => 38,
            TermType::FILTER => 39,
            TermType::CONCAT_MAP => 40,
            TermType::ORDER_BY => 41,
            TermType::DISTINCT => 42,
            TermType::COUNT => 43,
            TermType::IS_EMPTY => 86,
            TermType::UNION => 44,
            TermType::NTH => 45,
            TermType::BRACKET => 170,
            TermType::INNER_JOIN => 48,
            TermType::OUTER_JOIN => 49,
            TermType::EQ_JOIN => 50,
            TermType::ZIP => 72,
            TermType::RANGE => 173,
            TermType::INSERT_AT => 82,
            TermType::DELETE_AT => 83,
            TermType::CHANGE_AT => 84,
            TermType::SPLICE_AT => 85,
            TermType::COERCE_TO => 51,
            TermType::TYPE_OF => 52,
            TermType::UPDATE => 53,
            TermType::DELETE => 54,
            TermType::REPLACE => 55,
            TermType::INSERT => 56,
            TermType::DB_CREATE => 57,
            TermType::DB_DROP => 58,
            TermType::DB_LIST => 59,
            TermType::TABLE_CREATE => 60,
            TermType::TABLE_DROP => 61,
            TermType::TABLE_LIST => 62,
            TermType::CONFIG => 174,
            TermType::STATUS => 175,
            TermType::WAIT => 177,
            TermType::RECONFIGURE => 176,
            TermType::REBALANCE => 179,
            TermType::SYNC => 138,
            TermType::INDEX_CREATE => 75,
            TermType::INDEX_DROP => 76,
            TermType::INDEX_LIST => 77,
            TermType::INDEX_STATUS => 139,
            TermType::INDEX_WAIT => 140,
            TermType::INDEX_RENAME => 156,
            TermType::FUNCALL => 64,
            TermType::BRANCH => 65,
            TermType::OR => 66,
            TermType::AND => 67,
            TermType::FOR_EACH => 68,
            TermType::FUNC => 69,
            TermType::ASC => 73,
            TermType::DESC => 74,
            TermType::INFO => 79,
            TermType::MATCH => 97,
            TermType::UPCASE => 141,
            TermType::DOWNCASE => 142,
            TermType::SAMPLE => 81,
            TermType::DEFAULT => 92,
            TermType::JSON => 98,
            TermType::TO_JSON_STRING => 172,
            TermType::ISO8601 => 99,
            TermType::TO_ISO8601 => 100,
            TermType::EPOCH_TIME => 101,
            TermType::TO_EPOCH_TIME => 102,
            TermType::NOW => 103,
            TermType::IN_TIMEZONE => 104,
            TermType::DURING => 105,
            TermType::DATE => 106,
            TermType::TIME_OF_DAY => 126,
            TermType::TIMEZONE => 127,
            TermType::YEAR => 128,
            TermType::MONTH => 129,
            TermType::DAY => 130,
            TermType::DAY_OF_WEEK => 131,
            TermType::DAY_OF_YEAR => 132,
            TermType::HOURS => 133,
            TermType::MINUTES => 134,
            TermType::SECONDS => 135,
            TermType::TIME => 136,
            TermType::MONDAY => 107,
            TermType::TUESDAY => 108,
            TermType::WEDNESDAY => 109,
            TermType::THURSDAY => 110,
            TermType::FRIDAY => 111,
            TermType::SATURDAY => 112,
            TermType::SUNDAY => 113,
            TermType::JANUARY => 114,
            TermType::FEBRUARY => 115,
            TermType::MARCH => 116,
            TermType::APRIL => 117,
            TermType::MAY => 118,
            TermType::JUNE => 119,
            TermType::JULY => 120,
            TermType::AUGUST => 121,
            TermType::SEPTEMBER => 122,
            TermType::OCTOBER => 123,
            TermType::NOVEMBER => 124,
            TermType::DECEMBER => 125,
            TermType::LITERAL => 137,
            TermType::GROUP => 144,
            TermType::SUM => 145,
            TermType::AVG => 146,
            TermType::MIN => 147,
            TermType::MAX => 148,
            TermType::SPLIT => 149,
            TermType::UNGROUP => 150,
            TermType::RANDOM => 151,
            TermType::CHANGES => 152,
            TermType::ARGS => 154,
            TermType::BINARY => 155,
            TermType::GEOJSON => 157,
            TermType::TO_GEOJSON => 158,
            TermType::POINT => 159,
            TermType::LINE => 160,
            TermType::POLYGON => 161,
            TermType::DISTANCE => 162,
            TermType::INTERSECTS => 163,
            TermType::INCLUDES => 164,
            TermType::CIRCLE => 165,
            TermType::GET_INTERSECTING => 166,
            TermType::FILL => 167,
            TermType::GET_NEAREST => 168,
            TermType::POLYGON_SUB => 171,
            TermType::MINVAL => 180,
            TermType::MAXVAL => 181,
        }
    }

    /// The code of this term type, as it stands on the wire.
    pub fn code(&self) -> (c: u32)
        ensures
            c == self.spec_code(),
    {
        match self {
            TermType::DATUM => 1,
            TermType::MAKE_ARRAY => 2,
            TermType::MAKE_OBJ => 3,
            TermType::VAR => 10,
            TermType::JAVASCRIPT => 11,
            TermType::UUID => 169,
            TermType::HTTP => 153,
            TermType::ERROR => 12,
            TermType::IMPLICIT_VAR => 13,
            TermType::DB => 14,
            TermType::TABLE => 15,
            TermType::GET => 16,
            TermType::GET_ALL => 78,
            TermType::EQ => 17,
            TermType::NE => 18,
            TermType::LT => 19,
            TermType::LE => 20,
            TermType::GT => 21,
            TermType::GE => 22,
            TermType::NOT => 23,
            TermType::ADD => 24,
            TermType::SUB => 25,
            TermType::MUL => 26,
            TermType::DIV => 27,
            TermType::MOD => 28,
            TermType::FLOOR => 183,
            TermType::CEIL => 184,
            TermType::ROUND => 185,
            TermType::APPEND => 29,
            TermType::PREPEND => 80,
            TermType::DIFFERENCE => 95,
            TermType::SET_INSERT => 88,
            TermType::SET_INTERSECTION => 89,
            TermType::SET_UNION => 90,
            TermType::SET_DIFFERENCE => 91,
            TermType::SLICE => 30,
            TermType::SKIP => 70,
            TermType::LIMIT => 71,
            TermType::OFFSETS_OF => 87,
            TermType::CONTAINS => 93,
            TermType::GET_FIELD => 31,
            TermType::KEYS => 94,
            TermType::VALUES => 186,
            TermType::OBJECT => 143,
            TermType::HAS_FIELDS => 32,
            TermType::WITH_FIELDS => 96,
            TermType::PLUCK => 33,
            TermType::WITHOUT => 34,
            TermType::MERGE => 35,
            TermType::BETWEEN_DEPRECATED => 36,
            TermType::BETWEEN => 182,
            TermType::REDUCE => 37,
            TermType::MAP => 38,
            TermType::FILTER => 39,
            TermType::CONCAT_MAP => 40,
            TermType::ORDER_BY => 41,
            TermType::DISTINCT => 42,
            TermType::COUNT => 43,
            TermType::IS_EMPTY => 86,
            TermType::UNION => 44,
            TermType::NTH => 45,
            TermType::BRACKET => 170,
            TermType::INNER_JOIN => 48,
            TermType::OUTER_JOIN => 49,
            TermType::EQ_JOIN => 50,
            TermType::ZIP => 72,
            TermType::RANGE => 173,
            TermType::INSERT_AT => 82,
            TermType::DELETE_AT => 83,
            TermType::CHANGE_AT => 84,
            TermType::SPLICE_AT => 85,
            TermType::COERCE_TO => 51,
            TermType::TYPE_OF => 52,
            TermType::UPDATE => 53,
            TermType::DELETE => 54,
            TermType::REPLACE => 55,
            TermType::INSERT => 56,
            TermType::DB_CREATE => 57,
            TermType::DB_DROP => 58,
            TermType::DB_LIST => 59,
            TermType::TABLE_CREATE => 60,
            TermType::TABLE_DROP => 61,
            TermType::TABLE_LIST => 62,
            TermType::CONFIG => 174,
            TermType::STATUS => 175,
            TermType::WAIT => 177,
            TermType::RECONFIGURE => 176,
            TermType::REBALANCE => 179,
            TermType::SYNC => 138,
            TermType::INDEX_CREATE => 75,
            TermType::INDEX_DROP => 76,
            TermType::INDEX_LIST => 77,
            TermType::INDEX_STATUS => 139,
            TermType::INDEX_WAIT => 140,
            TermType::INDEX_RENAME => 156,
            TermType::FUNCALL => 64,
            TermType::BRANCH => 65,
            TermType::OR => 66,
            TermType::AND => 67,
            TermType::FOR_EACH => 68,
            TermType::FUNC => 69,
            TermType::ASC => 73,
            TermType::DESC => 74,
            TermType::INFO => 79,
            TermType::MATCH => 97,
            TermType::UPCASE => 141,
            TermType::DOWNCASE => 142,
            TermType::SAMPLE => 81,
            TermType::DEFAULT => 92,
            TermType::JSON => 98,
            TermType::TO_JSON_STRING => 172,
            TermType::ISO8601 => 99,
            TermType::TO_ISO8601 => 100,
            TermType::EPOCH_TIME => 101,
            TermType::TO_EPOCH_TIME => 102,
            TermType::NOW => 103,
            TermType::IN_TIMEZONE => 104,
            TermType::DURING => 105,
            TermType::DATE => 106,
            TermType::TIME_OF_DAY => 126,
            TermType::TIMEZONE => 127,
            TermType::YEAR => 128,
            TermType::MONTH => 129,
            TermType::DAY => 130,
            TermType::DAY_OF_WEEK => 131,
            TermType::DAY_OF_YEAR => 132,
            TermType::HOURS => 133,
            TermType::MINUTES => 134,
            TermType::SECONDS => 135,
            TermType::TIME => 136,
            TermType::MONDAY => 107,
            TermType::TUESDAY => 108,
            TermType::WEDNESDAY => 109,
            TermType::THURSDAY => 110,
            TermType::FRIDAY => 111,
            TermType::SATURDAY => 112,
            TermType::SUNDAY => 113,
            TermType::JANUARY => 114,
            TermType::FEBRUARY => 115,
            TermType::MARCH => 116,
            TermType::APRIL => 117,
            TermType::MAY => 118,
            TermType::JUNE => 119,
            TermType::JULY => 120,
            TermType::AUGUST => 121,
            TermType::SEPTEMBER => 122,
            TermType::OCTOBER => 123,
            TermType::NOVEMBER => 124,
            TermType::DECEMBER => 125,
            TermType::LITERAL => 137,
            TermType::GROUP => 144,
            TermType::SUM => 145,
            TermType::AVG => 146,
            TermType::MIN => 147,
            TermType::MAX => 148,
            TermType::SPLIT => 149,
            TermType::UNGROUP => 150,
            TermType::RANDOM => 151,
            TermType::CHANGES => 152,
            TermType::ARGS => 154,
            TermType::BINARY => 155,
            TermType::GEOJSON => 157,
            TermType::TO_GEOJSON => 158,
            TermType::POINT => 159,
            TermType::LINE => 160,
            TermType::POLYGON => 161,
            TermType::DISTANCE => 162,
            TermType::INTERSECTS => 163,
            TermType::INCLUDES => 164,
            TermType::CIRCLE => 165,
            TermType::GET_INTERSECTING => 166,
            TermType::FILL => 167,
            TermType::GET_NEAREST => 168,
            TermType::POLYGON_SUB => 171,
            TermType::MINVAL => 180,
            TermType::MAXVAL => 181,
        }
    }

    /// The term type whose code is `c`, if there is one.
    pub open spec fn spec_from_code(c: u32) -> Option<TermType> {
        if c == 1 {
            Some(TermType::DATUM)
        } else if c == 2 {
            Some(TermType::MAKE_ARRAY)
        } else if c == 3 {
            Some(TermType::MAKE_OBJ)
        } else if c == 10 {
            Some(TermType::VAR)
        } else if c == 11 {
            Some(TermType::JAVASCRIPT)
        } else if c == 169 {
            Some(TermType::UUID)
        } else if c == 153 {
            Some(TermType::HTTP)
        } else if c == 12 {
            Some(TermType::ERROR)
        } else if c == 13 {
            Some(TermType::IMPLICIT_VAR)
        } else if c == 14 {
            Some(TermType::DB)
        } else if c == 15 {
            Some(TermType::TABLE)
        } else if c == 16 {
            Some(TermType::GET)
        } else if c == 78 {
            Some(TermType::GET_ALL)
        } else if c == 17 {
            Some(TermType::EQ)
        } else if c == 18 {
            Some(TermType::NE)
        } else if c == 19 {
            Some(TermType::LT)
        } else if c == 20 {
            Some(TermType::LE)
        } else if c == 21 {
            Some(TermType::GT)
        } else if c == 22 {
            Some(TermType::GE)
        } else if c == 23 {
            Some(TermType::NOT)
        } else if c == 24 {
            Some(TermType::ADD)
        } else if c == 25 {
            Some(TermType::SUB)
        } else if c == 26 {
            Some(TermType::MUL)
        } else if c == 27 {
            Some(TermType::DIV)
        } else if c == 28 {
            Some(TermType::MOD)
        } else if c == 183 {
            Some(TermType::FLOOR)
        } else if c == 184 {
            Some(TermType::CEIL)
        } else if c == 185 {
            Some(TermType::ROUND)
        } else if c == 29 {
            Some(TermType::APPEND)
        } else if c == 80 {
            Some(TermType::PREPEND)
        } else if c == 95 {
            Some(TermType::DIFFERENCE)
        } else if c == 88 {
            Some(TermType::SET_INSERT)
        } else if c == 89 {
            Some(TermType::SET_INTERSECTION)
        } else if c == 90 {
            Some(TermType::SET_UNION)
        } else if c == 91 {
            Some(TermType::SET_DIFFERENCE)
        } else if c == 30 {
            Some(TermType::SLICE)
        } else if c == 70 {
            Some(TermType::SKIP)
        } else if c == 71 {
            Some(TermType::LIMIT)
        } else if c == 87 {
            Some(TermType::OFFSETS_OF)
        } else if c == 93 {
            Some(TermType::CONTAINS)
        } else if c == 31 {
            Some(TermType::GET_FIELD)
        } else if c == 94 {
            Some(TermType::KEYS)
        } else if c == 186 {
            Some(TermType::VALUES)
        } else if c == 143 {
            Some(TermType::OBJECT)
        } else if c == 32 {
            Some(TermType::HAS_FIELDS)
        } else if c == 96 {
            Some(TermType::WITH_FIELDS)
        } else if c == 33 {
            Some(TermType::PLUCK)
        } else if c == 34 {
            Some(TermType::WITHOUT)
        } else if c == 35 {
            Some(TermType::MERGE)
        } else if c == 36 {
            Some(TermType::BETWEEN_DEPRECATED)
        } else if c == 182 {
            Some(TermType::BETWEEN)
        } else if c == 37 {
            Some(TermType::REDUCE)
        } else if c == 38 {
            Some(TermType::MAP)
        } else if c == 39 {
            Some(TermType::FILTER)
        } else if c == 40 {
            Some(TermType::CONCAT_MAP)
        } else if c == 41 {
            Some(TermType::ORDER_BY)
        } else if c == 42 {
            Some(TermType::DISTINCT)
        } else if c == 43 {
            Some(TermType::COUNT)
        } else if c == 86 {
            Some(TermType::IS_EMPTY)
        } else if c == 44 {
            Some(TermType::UNION)
        } else if c == 45 {
            Some(TermType::NTH)
        } else if c == 170 {
            Some(TermType::BRACKET)
        } else if c == 48 {
            Some(TermType::INNER_JOIN)
        } else if c == 49 {
            Some(TermType::OUTER_JOIN)
        } else if c == 50 {
            Some(TermType::EQ_JOIN)
        } else if c == 72 {
            Some(TermType::ZIP)
        } else if c == 173 {
            Some(TermType::RANGE)
        } else if c == 82 {
            Some(TermType::INSERT_AT)
        } else if c == 83 {
            Some(TermType::DELETE_AT)
        } else if c == 84 {
            Some(TermType::CHANGE_AT)
        } else if c == 85 {
            Some(TermType::SPLICE_AT)
        } else if c == 51 {
            Some(TermType::COERCE_TO)
        } else if c == 52 {
            Some(TermType::TYPE_OF)
        } else if c == 53 {
            Some(TermType::UPDATE)
        } else if c == 54 {
            Some(TermType::DELETE)
        } else if c == 55 {
            Some(TermType::REPLACE)
        } else if c == 56 {
            Some(TermType::INSERT)
        } else if c == 57 {
            Some(TermType::DB_CREATE)
        } else if c == 58 {
            Some(TermType::DB_DROP)
        } else if c == 59 {
            Some(TermType::DB_LIST)
        } else if c == 60 {
            Some(TermType::TABLE_CREATE)
        } else if c == 61 {
            Some(TermType::TABLE_DROP)
        } else if c == 62 {
            Some(TermType::TABLE_LIST)
        } else if c == 174 {
            Some(TermType::CONFIG)
        } else if c == 175 {
            Some(TermType::STATUS)
        } else if c == 177 {
            Some(TermType::WAIT)
        } else if c == 176 {
            Some(TermType::RECONFIGURE)
        } else if c == 179 {
            Some(TermType::REBALANCE)
        } else if c == 138 {
            Some(TermType::SYNC)
        } else if c == 75 {
            Some(TermType::INDEX_CREATE)
        } else if c == 76 {
            Some(TermType::INDEX_DROP)
        } else if c == 77 {
            Some(TermType::INDEX_LIST)
        } else if c == 139 {
            Some(TermType::INDEX_STATUS)
        } else if c == 140 {
            Some(TermType::INDEX_WAIT)
        } else if c == 156 {
            Some(TermType::INDEX_RENAME)
        } else if c == 64 {
            Some(TermType::FUNCALL)
        } else if c == 65 {
            Some(TermType::BRANCH)
        } else if c == 66 {
            Some(TermType::OR)
        } else if c == 67 {
            Some(TermType::AND)
        } else if c == 68 {
            Some(TermType::FOR_EACH)
        } else if c == 69 {
            Some(TermType::FUNC)
        } else if c == 73 {
            Some(TermType::ASC)
        } else if c == 74 {
            Some(TermType::DESC)
        } else if c == 79 {
            Some(TermType::INFO)
        } else if c == 97 {
            Some(TermType::MATCH)
        } else if c == 141 {
            Some(TermType::UPCASE)
        } else if c == 142 {
            Some(TermType::DOWNCASE)
        } else if c == 81 {
            Some(TermType::SAMPLE)
        } else if c == 92 {
            Some(TermType::DEFAULT)
        } else if c == 98 {
            Some(TermType::JSON)
        } else if c == 172 {
            Some(TermType::TO_JSON_STRING)
        } else if c == 99 {
            Some(TermType::ISO8601)
        } else if c == 100 {
            Some(TermType::TO_ISO8601)
        } else if c == 101 {
            Some(TermType::EPOCH_TIME)
        } else if c == 102 {
            Some(TermType::TO_EPOCH_TIME)
        } else if c == 103 {
            Some(TermType::NOW)
        } else if c == 104 {
            Some(TermType::IN_TIMEZONE)
        } else if c == 105 {
            Some(TermType::DURING)
        } else if c == 106 {
            Some(TermType::DATE)
        } else if c == 126 {
            Some(TermType::TIME_OF_DAY)
        } else if c == 127 {
            Some(TermType::TIMEZONE)
        } else if c == 128 {
            Some(TermType::YEAR)
        } else if c == 129 {
            Some(TermType::MONTH)
        } else if c == 130 {
            Some(TermType::DAY)
        } else if c == 131 {
            Some(TermType::DAY_OF_WEEK)
        } else if c == 132 {
            Some(TermType::DAY_OF_YEAR)
        } else if c == 133 {
            Some(TermType::HOURS)
        } else if c == 134 {
            Some(TermType::MINUTES)
        } else if c == 135 {
            Some(TermType::SECONDS)
        } else if c == 136 {
            Some(TermType::TIME)
        } else if c == 107 {
            Some(TermType::MONDAY)
        } else if c == 108 {
            Some(TermType::TUESDAY)
        } else if c == 109 {
            Some(TermType::WEDNESDAY)
        } else if c == 110 {
            Some(TermType::THURSDAY)
        } else if c == 111 {
            Some(TermType::FRIDAY)
        } else if c == 112 {
            Some(TermType::SATURDAY)
        } else if c == 113 {
            Some(TermType::SUNDAY)
        } else if c == 114 {
            Some(TermType::JANUARY)
        } else if c == 115 {
            Some(TermType::FEBRUARY)
        } else if c == 116 {
            Some(TermType::MARCH)
        } else if c == 117 {
            Some(TermType::APRIL)
        } else if c == 118 {
            Some(TermType::MAY)
        } else if c == 119 {
            Some(TermType::JUNE)
        } else if c == 120 {
            Some(TermType::JULY)
        } else if c == 121 {
            Some(TermType::AUGUST)
        } else if c == 122 {
            Some(TermType::SEPTEMBER)
        } else if c == 123 {
            Some(TermType::OCTOBER)
        } else if c == 124 {
            Some(TermType::NOVEMBER)
        } else if c == 125 {
            Some(TermType::DECEMBER)
        } else if c == 137 {
            Some(TermType::LITERAL)
        } else if c == 144 {
            Some(TermType::GROUP)
        } else if c == 145 {
            Some(TermType::SUM)
        } else if c == 146 {
            Some(TermType::AVG)
        } else if c == 147 {
            Some(TermType::MIN)
        } else if c == 148 {
            Some(TermType::MAX)
        } else if c == 149 {
            Some(TermType::SPLIT)
        } else if c == 150 {
            Some(TermType::UNGROUP)
        } else if c == 151 {
            Some(TermType::RANDOM)
        } else if c == 152 {
            Some(TermType::CHANGES)
        } else if c == 154 {
            Some(TermType::ARGS)
        } else if c == 155 {
            Some(TermType::BINARY)
        } else if c == 157 {
            Some(TermType::GEOJSON)
        } else if c == 158 {
            Some(TermType::TO_GEOJSON)
        } else if c == 159 {
            Some(TermType::POINT)
        } else if c == 160 {
            Some(TermType::LINE)
        } else if c == 161 {
            Some(TermType::POLYGON)
        } else if c == 162 {
            Some(TermType::DISTANCE)
        } else if c == 163 {
            Some(TermType::INTERSECTS)
        } else if c == 164 {
            Some(TermType::INCLUDES)
        } else if c == 165 {
            Some(TermType::CIRCLE)
        } else if c == 166 {
            Some(TermType::GET_INTERSECTING)
        } else if c == 167 {
            Some(TermType::FILL)
        } else if c == 168 {
            Some(TermType::GET_NEAREST)
        } else if c == 171 {
            Some(TermType::POLYGON_SUB)
        } else if c == 180 {
            Some(TermType::MINVAL)
        } else if c == 181 {
            Some(TermType::MAXVAL)
        } else {
            None
        }
    }
}

/// Each TermType stands on the wire for its number in the protocol
/// definition (ql2), whatever other variants stand for.
pub proof fn lemma_term_type_codes()
    ensures
        TermType::DATUM.spec_code() == 1,
        TermType::MAKE_ARRAY.spec_code() == 2,
        TermType::MAKE_OBJ.spec_code() == 3,
        TermType::VAR.spec_code() == 10,
        TermType::JAVASCRIPT.spec_code() == 11,
        TermType::UUID.spec_code() == 169,
        TermType::HTTP.spec_code() == 153,
        TermType::ERROR.spec_code() == 12,
        TermType::IMPLICIT_VAR.spec_code() == 13,
        TermType::DB.spec_code() == 14,
        TermType::TABLE.spec_code() == 15,
        TermType::GET.spec_code() == 16,
        TermType::GET_ALL.spec_code() == 78,
        TermType::EQ.spec_code() == 17,
        TermType::NE.spec_code() == 18,
        TermType::LT.spec_code() == 19,
        TermType::LE.spec_code() == 20,
        TermType::GT.spec_code() == 21,
        TermType::GE.spec_code() == 22,
        TermType::NOT.spec_code() == 23,
        TermType::ADD.spec_code() == 24,
        TermType::SUB.spec_code() == 25,
        TermType::MUL.spec_code() == 26,
        TermType::DIV.spec_code() == 27,
        TermType::MOD.spec_code() == 28,
        TermType::FLOOR.spec_code() == 183,
        TermType::CEIL.spec_code() == 184,
        TermType::ROUND.spec_code() == 185,
        TermType::APPEND.spec_code() == 29,
        TermType::PREPEND.spec_code() == 80,
        TermType::DIFFERENCE.spec_code() == 95,
        TermType::SET_INSERT.spec_code() == 88,
        TermType::SET_INTERSECTION.spec_code() == 89,
        TermType::SET_UNION.spec_code() == 90,
        TermType::SET_DIFFERENCE.spec_code() == 91,
        TermType::SLICE.spec_code() == 30,
        TermType::SKIP.spec_code() == 70,
        TermType::LIMIT.spec_code() == 71,
        TermType::OFFSETS_OF.spec_code() == 87,
        TermType::CONTAINS.spec_code() == 93,
        TermType::GET_FIELD.spec_code() == 31,
        TermType::KEYS.spec_code() == 94,
        TermType::VALUES.spec_code() == 186,
        TermType::OBJECT.spec_code() == 143,
        TermType::HAS_FIELDS.spec_code() == 32,
        TermType::WITH_FIELDS.spec_code() == 96,
        TermType::PLUCK.spec_code() == 33,
        TermType::WITHOUT.spec_code() == 34,
        TermType::MERGE.spec_code() == 35,
        TermType::BETWEEN_DEPRECATED.spec_code() == 36,
        TermType::BETWEEN.spec_code() == 182,
        TermType::REDUCE.spec_code() == 37,
        TermType::MAP.spec_code() == 38,
        TermType::FILTER.spec_code() == 39,
        TermType::CONCAT_MAP.spec_code() == 40,
        TermType::ORDER_BY.spec_code() == 41,
        TermType::DISTINCT.spec_code() == 42,
        TermType::COUNT.spec_code() == 43,
        TermType::IS_EMPTY.spec_code() == 86,
        TermType::UNION.spec_code() == 44,
        TermType::NTH.spec_code() == 45,
        TermType::BRACKET.spec_code() == 170,
        TermType::INNER_JOIN.spec_code() == 48,
        TermType::OUTER_JOIN.spec_code() == 49,
        TermType::EQ_JOIN.spec_code() == 50,
        TermType::ZIP.spec_code() == 72,
        TermType::RANGE.spec_code() == 173,
        TermType::INSERT_AT.spec_code() == 82,
        TermType::DELETE_AT.spec_code() == 83,
        TermType::CHANGE_AT.spec_code() == 84,
        TermType::SPLICE_AT.spec_code() == 85,
        TermType::COERCE_TO.spec_code() == 51,
        TermType::TYPE_OF.spec_code() == 52,
        TermType::UPDATE.spec_code() == 53,
        TermType::DELETE.spec_code() == 54,
        TermType::REPLACE.spec_code() == 55,
        TermType::INSERT.spec_code() == 56,
        TermType::DB_CREATE.spec_code() == 57,
        TermType::DB_DROP.spec_code() == 58,
        TermType::DB_LIST.spec_code() == 59,
        TermType::TABLE_CREATE.spec_code() == 60,
        TermType::TABLE_DROP.spec_code() == 61,
        TermType::TABLE_LIST.spec_code() == 62,
        TermType::CONFIG.spec_code() == 174,
        TermType::STATUS.spec_code() == 175,
        TermType::WAIT.spec_code() == 177,
        TermType::RECONFIGURE.spec_code() == 176,
        TermType::REBALANCE.spec_code() == 179,
        TermType::SYNC.spec_code() == 138,
        TermType::INDEX_CREATE.spec_code() == 75,
        TermType::INDEX_DROP.spec_code() == 76,
        TermType::INDEX_LIST.spec_code() == 77,
        TermType::INDEX_STATUS.spec_code() == 139,
        TermType::INDEX_WAIT.spec_code() == 140,
        TermType::INDEX_RENAME.spec_code() == 156,
        TermType::FUNCALL.spec_code() == 64,
        TermType::BRANCH.spec_code() == 65,
        TermType::OR.spec_code() == 66,
        TermType::AND.spec_code() == 67,
        TermType::FOR_EACH.spec_code() == 68,
        TermType::FUNC.spec_code() == 69,
        TermType::ASC.spec_code() == 73,
        TermType::DESC.spec_code() == 74,
        TermType::INFO.spec_code() == 79,
        TermType::MATCH.spec_code() == 97,
        TermType::UPCASE.spec_code() == 141,
        TermType::DOWNCASE.spec_code() == 142,
        TermType::SAMPLE.spec_code() == 81,
        TermType::DEFAULT.spec_code() == 92,
        TermType::JSON.spec_code() == 98,
        TermType::TO_JSON_STRING.spec_code() == 172,
        TermType::ISO8601.spec_code() == 99,
        TermType::TO_ISO8601.spec_code() == 100,
        TermType::EPOCH_TIME.spec_code() == 101,
        TermType::TO_EPOCH_TIME.spec_code() == 102,
        TermType::NOW.spec_code() == 103,
        TermType::IN_TIMEZONE.spec_code() == 104,
        TermType::DURING.spec_code() == 105,
        TermType::DATE.spec_code() == 106,
        TermType::TIME_OF_DAY.spec_code() == 126,
        TermType::TIMEZONE.spec_code() == 127,
        TermType::YEAR.spec_code() == 128,
        TermType::MONTH.spec_code() == 129,
        TermType::DAY.spec_code() == 130,
        TermType::DAY_OF_WEEK.spec_code() == 131,
        TermType::DAY_OF_YEAR.spec_code() == 132,
        TermType::HOURS.spec_code() == 133,
        TermType::MINUTES.spec_code() == 134,
        TermType::SECONDS.spec_code() == 135,
        TermType::TIME.spec_code() == 136,
        TermType::MONDAY.spec_code() == 107,
        TermType::TUESDAY.spec_code() == 108,
        TermType::WEDNESDAY.spec_code() == 109,
        TermType::THURSDAY.spec_code() == 110,
        TermType::FRIDAY.spec_code() == 111,
        TermType::SATURDAY.spec_code() == 112,
        TermType::SUNDAY.spec_code() == 113,
        TermType::JANUARY.spec_code() == 114,
        TermType::FEBRUARY.spec_code() == 115,
        TermType::MARCH.spec_code() == 116,
        TermType::APRIL.spec_code() == 117,
        TermType::MAY.spec_code() == 118,
        TermType::JUNE.spec_code() == 119,
        TermType::JULY.spec_code() == 120,
        TermType::AUGUST.spec_code() == 121,
        TermType::SEPTEMBER.spec_code() == 122,
        TermType::OCTOBER.spec_code() == 123,
        TermType::NOVEMBER.spec_code() == 124,
        TermType::DECEMBER.spec_code() == 125,
        TermType::LITERAL.spec_code() == 137,
        TermType::GROUP.spec_code() == 144,
        TermType::SUM.spec_code() == 145,
        TermType::AVG.spec_code() == 146,
        TermType::MIN.spec_code() == 147,
        TermType::MAX.spec_code() == 148,
        TermType::SPLIT.spec_code() == 149,
        TermType::UNGROUP.spec_code() == 150,
        TermType::RANDOM.spec_code() == 151,
        TermType::CHANGES.spec_code() == 152,
        TermType::ARGS.spec_code() == 154,
        TermType::BINARY.spec_code() == 155,
        TermType::GEOJSON.spec_code() == 157,
        TermType::TO_GEOJSON.spec_code() == 158,
        TermType::POINT.spec_code() == 159,
        TermType::LINE.spec_code() == 160,
        TermType::POLYGON.spec_code() == 161,
        TermType::DISTANCE.spec_code() == 162,
        TermType::INTERSECTS.spec_code() == 163,
        TermType::INCLUDES.spec_code() == 164,
        TermType::CIRCLE.spec_code() == 165,
        TermType::GET_INTERSECTING.spec_code() == 166,
        TermType::FILL.spec_code() == 167,
        TermType::GET_NEAREST.spec_code() == 168,
        TermType::POLYGON_SUB.spec_code() == 171,
        TermType::MINVAL.spec_code() == 180,
        TermType::MAXVAL.spec_code() == 181,
{
}
/// Distinct TermType variants have distinct codes: a code names one variant.
pub proof fn lemma_term_type_code_injective(a: TermType, b: TermType)
    requires
        a.spec_code() == b.spec_code(),
    ensures
        a == b,
{
    lemma_term_type_from_code(a);
    lemma_term_type_from_code(b);
}

/// Reading back the code of a term type gives that term type.
pub proof fn lemma_term_type_from_code(t: TermType)
    ensures
        TermType::spec_from_code(t.spec_code()) == Some(t),
{
}

} // verus!
