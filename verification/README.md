# open_net

A WebSocket client, network monitoring and the transport below them, as a
library whose decisions are verified with Verus.

- `src/` holds the decisions: state machines that take an event and answer with
  the next state and what to do, together with their contracts. The files end
  with the laws that relate several of these functions; `worker_laws.rs` and
  `worker_order_laws.rs` hold those of the connection worker, and
  `client_laws.rs` those between the worker and the handles of its client.
- `app/` holds what waits and touches the outside: sockets, TLS sessions,
  threads and timers. It carries out what the library asks for.
- `tests/` runs the library on concrete values.

What is believed without proof is marked `external_body` in `src/`: calls into
`http`, `httparse`, `reqwest`, `rustls`, `tokio`, `tungstenite` and
`webpki-roots`, and the quoting of text by the standard library. Each says in
its documentation what it claims.
