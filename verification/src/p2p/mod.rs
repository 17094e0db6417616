//! P2P over QUIC: the state of the test client.
//!
//! The client connects, opens a bidirectional stream once the handshake is
//! done, sends its message, and is done once the echo has come back.

pub mod client;
