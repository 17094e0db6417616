use vstd::prelude::*;

verus! {

/// TLS settings, independent of any particular QUIC stack's TLS type.
#[derive(Debug, Clone, PartialEq)]
pub struct TlsConf {
    /// PEM certificate file (required on the server side)
    pub cert_file: Option<String>,
    /// PEM private-key file (required on the server side)
    pub key_file: Option<String>,
    /// CA certificate path (file or directory) used to check the peer
    pub ca_file: Option<String>,
    /// ALPN protocol list, such as `["vauid", "h3"]`
    pub alpn: Vec<String>,
    /// Whether 0-RTT early data is enabled
    pub enable_early_data: bool,
    /// Whether a client verifies the peer's certificate
    pub verify: bool,
}

impl Default for TlsConf {
    /// Nothing set: no files, no ALPN, no early data, no verification.
    fn default() -> (r: Self)
        ensures
            r.cert_file is None,
            r.key_file is None,
            r.ca_file is None,
            r.alpn@.len() == 0,
            !r.enable_early_data,
            !r.verify,
    {
        TlsConf {
            cert_file: None,
            key_file: None,
            ca_file: None,
            alpn: Vec::new(),
            enable_early_data: false,
            verify: false,
        }
    }
}

} // verus!
