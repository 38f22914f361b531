# nanomsg multi-socket server

A server on a nanomsg REQ/REP control socket that, for every `CreateSocket`
request, creates a dedicated PAIR socket for the client, registers the new
connection, and hands the session on; each session ends on its killswitch, on
the client's `CloseConnection`, or after staying idle longer than its timeout.

Layout:

- `src/` is the library, with its contracts and proofs:
  - `config.rs`: socket URLs, session timeout and GC interval, with the
    decimal rendering of connection ids in client socket URLs (`decimal.rs`);
  - `server.rs`: the connection registry, id allocation, socket file
    permissions and the answers to control requests;
  - `peer.rs`: the decisions of a session (end, deliver, refresh, send);
  - `error.rs`, `proto.rs`: errors and messages;
  - `duration.rs`: what the library relies on of `std::time::Duration`.
- `app/` is the event loop around it (futures, tokio-core, nanomsg, bincode,
  chown/chmod), with serde-enabled copies of the message types.
- `tests/` exercises the library on concrete values.
