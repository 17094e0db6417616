//! vauid: QUIC / signalling core library.
//!
//! The library holds the logic of the vauid server: configuration defaults and
//! the decisions drawn from them, the signalling protocol, rooms and the
//! per-connection signalling state machine, and the transport planning that
//! precedes the QUIC stack.

pub mod conf;
pub mod error;
pub mod log;
pub mod p2p;
pub mod proto;
pub mod quic;
pub mod signal;
