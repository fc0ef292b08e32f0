# rethink

A small client for the RethinkDB wire protocol, verified with Verus.

- `src/proto.rs`: the protocol's numeric codes (versions, protocols, query,
  response, error, datum and term types), each enum with the code it stands
  for on the wire, and proofs that no two variants share a code.
- `src/ast.rs`: ReQL terms (`R`, `DB`, `Table`, `Term`) and the JSON text
  each is written as; running a term composes the query `[1, term, {}]`
  and frames it on a connection.
- `src/net.rs`: the connection's state, the handshake and query frames
  (built with `byteorder`), the reading of replies, and the steps of
  connecting; proofs that frames and the handshake read back as written and
  that successive queries take successive tokens.
- `app/`: the socket side: opening TCP streams, writing frames, reading and
  printing replies, and a `main` that runs a few queries.
