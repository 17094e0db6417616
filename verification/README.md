# vauid

Core of the vauid QUIC / WebRTC-signalling server, verified with Verus.

- `src/conf/`: configuration types, their defaults, the congestion-control
  names, and what loading a configuration file does with what it found.
- `src/proto/`: the signalling protocol (`SignalMessage`, `ServerEvent`) and the
  media / RTC data model.
- `src/signal/`: rooms (`Room`, `RoomRegistry`, kept in `dashmap` maps behind
  trusted wrappers in `table.rs`), the per-connection signalling state machine
  (`server.rs`), and properties that span messages and connections
  (`properties.rs`).
- `src/quic/`: the plain-value plan of the QUIC stack's configuration (transport
  parameters, TLS settings and their required fields) and the UDP send step.
- `src/log.rs`, `src/p2p/`, `src/error.rs`: request ids, the echo client's
  state, errors.
- `app/`: the program: WebSocket service (axum), QUIC endpoint (tquic), UDP
  socket (tokio), TOML files (serde/toml), logging (tracing).
- `tests/`: tests of the library.
