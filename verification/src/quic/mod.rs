//! QUIC: what the QUIC stack is configured with, and the decisions of the
//! UDP send path.

pub mod conf;
pub mod socket;
