use super::algorithm::CcAlgorithm;
use super::tls::TlsConf;
use vstd::prelude::*;

verus! {

/// Default QUIC configuration file (relative to the application root).
pub const QUIC_CONF_PATH: &'static str = "conf/quic.conf.toml";

/// General QUIC settings, meant to be turned into the configuration of any
/// QUIC stack. Every field has a default; a configuration file only names
/// what it overrides.
#[derive(Debug, Clone)]
pub struct QuicConf {
    /// Idle timeout in seconds; 0 disables it (default)
    pub max_idle_timeout: u64,
    /// Handshake timeout in seconds; 0 disables it (default 30)
    pub max_handshake_timeout: u64,
    /// Maximum concurrent connections (default 1_000_000)
    pub max_concurrent_conns: u32,
    /// Maximum received UDP payload in bytes (default 65527)
    pub recv_udp_payload_size: u16,
    /// Maximum sent UDP payload in bytes (default 1200)
    pub send_udp_payload_size: usize,
    /// Connection-level initial flow-control window in bytes (default 10_485_760)
    pub initial_max_data: u64,
    /// Local bidirectional stream window in bytes (default 5_242_880)
    pub initial_max_stream_data_bidi_local: u64,
    /// Remote bidirectional stream window in bytes (default 2_097_152)
    pub initial_max_stream_data_bidi_remote: u64,
    /// Unidirectional stream window in bytes (default 1_048_576)
    pub initial_max_stream_data_uni: u64,
    /// Maximum bidirectional streams (default 200)
    pub initial_max_streams_bidi: u64,
    /// Maximum unidirectional streams (default 100)
    pub initial_max_streams_uni: u64,
    /// Congestion-control algorithm (default bbr)
    pub cc_algorithm: CcAlgorithm,
    /// TLS settings; `None` leaves TLS unset
    pub tls: Option<TlsConf>,
}

impl QuicConf {
    /// The default values of every field.
    pub open spec fn is_default(&self) -> bool {
        &&& self.max_idle_timeout == 0
        &&& self.max_handshake_timeout == 30
        &&& self.max_concurrent_conns == 1_000_000
        &&& self.recv_udp_payload_size == 65_527
        &&& self.send_udp_payload_size == 1_200
        &&& self.initial_max_data == 10_485_760
        &&& self.initial_max_stream_data_bidi_local == 5_242_880
        &&& self.initial_max_stream_data_bidi_remote == 2_097_152
        &&& self.initial_max_stream_data_uni == 1_048_576
        &&& self.initial_max_streams_bidi == 200
        &&& self.initial_max_streams_uni == 100
        &&& self.cc_algorithm == CcAlgorithm::Bbr
        &&& self.tls is None
    }
}

/// The documented defaults: no idle timeout, a 30 s handshake timeout,
/// 1_000_000 connections, UDP payloads of 65_527 received and 1_200 sent
/// bytes, windows of 10_485_760 / 5_242_880 (local) / 2_097_152 (remote) /
/// 1_048_576 (unidirectional) bytes, 200 bidirectional and 100
/// unidirectional streams, BBR, no TLS.
pub proof fn law_quic_defaults(c: QuicConf)
    requires
        c.is_default(),
    ensures
        c.max_idle_timeout == 0,
        c.max_handshake_timeout == 30,
        c.max_concurrent_conns == 1_000_000,
        c.recv_udp_payload_size == 65_527,
        c.send_udp_payload_size == 1_200,
        c.initial_max_data == 10_485_760,
        c.initial_max_stream_data_bidi_local == 5_242_880,
        c.initial_max_stream_data_bidi_remote == 2_097_152,
        c.initial_max_stream_data_uni == 1_048_576,
        c.initial_max_streams_bidi == 200,
        c.initial_max_streams_uni == 100,
        c.cc_algorithm == CcAlgorithm::Bbr,
        c.tls is None,
{
}

impl Default for QuicConf {
    fn default() -> (r: Self)
        ensures
            r.is_default(),
    {
        QuicConf {
            max_idle_timeout: 0,
            max_handshake_timeout: 30,
            max_concurrent_conns: 1_000_000,
            recv_udp_payload_size: 65_527,
            send_udp_payload_size: 1_200,
            initial_max_data: 10_485_760,
            initial_max_stream_data_bidi_local: 5_242_880,
            initial_max_stream_data_bidi_remote: 2_097_152,
            initial_max_stream_data_uni: 1_048_576,
            initial_max_streams_bidi: 200,
            initial_max_streams_uni: 100,
            cc_algorithm: CcAlgorithm::default(),
            tls: None,
        }
    }
}

} // verus!
