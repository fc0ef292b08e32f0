//! A client for the RethinkDB wire protocol: the protocol's numeric codes,
//! the ReQL query terms and their JSON text, and the framing of queries and
//! of the connection handshake.

pub mod proto;
pub mod net;
pub mod ast;
