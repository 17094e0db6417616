//! Configuration of the vauid server.

pub mod algorithm;
pub mod load;
pub mod quic;
pub mod server;
pub mod tls;

pub use algorithm::CcAlgorithm;
pub use quic::{QuicConf, QUIC_CONF_PATH};
pub use server::{LogConf, LogLevel, ServerConf, SERVER_CONF_PATH};
pub use tls::TlsConf;

use vstd::prelude::*;

verus! {

/// Default configuration directory (relative to the application root).
pub const QUIC_CONF_DIR: &'static str = "conf";

} // verus!
