//! Planning of the QUIC stack's configuration.
//!
//! [`QuicConf`] (the general settings) is turned here into plain values: the
//! transport parameters and the TLS settings, checked for what each side
//! requires. The program then hands them to the QUIC stack (tquic), whose
//! TLS setup reads the certificate files.
//!
//! Units: `QuicConf` counts time in **seconds** (easier to configure), the
//! stack in **milliseconds**; the conversion saturates at `u64::MAX`.

use crate::conf::{CcAlgorithm, QuicConf, TlsConf};
use crate::error::{config_err, Error, QuicError};
use vstd::prelude::*;
use vstd::slice::slice_to_vec;
use vstd::utf8::encode_utf8;

verus! {

/// Message of the error for a server configuration without TLS.
pub const SERVER_NEEDS_TLS: &'static str = "server 需要 tls 配置（cert_file / key_file）";

/// Message of the error for a server TLS configuration without certificate.
pub const SERVER_NEEDS_CERT: &'static str = "server tls 缺少 cert_file";

/// Message of the error for a server TLS configuration without private key.
pub const SERVER_NEEDS_KEY: &'static str = "server tls 缺少 key_file";

/// Seconds as milliseconds, saturating at `u64::MAX`.
pub open spec fn secs_to_ms(secs: u64) -> u64 {
    if secs * 1000 > u64::MAX {
        u64::MAX
    } else {
        (secs * 1000) as u64
    }
}

/// Seconds as milliseconds, saturating at `u64::MAX`.
pub fn secs_as_ms(secs: u64) -> (r: u64)
    ensures
        r == secs_to_ms(secs),
        secs * 1000 <= u64::MAX ==> r == secs * 1000,
        secs * 1000 > u64::MAX ==> r == u64::MAX,
{
    if secs <= u64::MAX / 1000 {
        secs * 1000
    } else {
        u64::MAX
    }
}

/// Transport parameters of the QUIC stack, in its units.
#[derive(Debug)]
pub struct TransportParams {
    /// Idle timeout in milliseconds (0 disables it)
    pub max_idle_timeout: u64,
    /// Handshake timeout in milliseconds (0 disables it)
    pub max_handshake_timeout: u64,
    pub max_concurrent_conns: u32,
    pub recv_udp_payload_size: u16,
    pub send_udp_payload_size: usize,
    pub initial_max_data: u64,
    pub initial_max_stream_data_bidi_local: u64,
    pub initial_max_stream_data_bidi_remote: u64,
    pub initial_max_stream_data_uni: u64,
    pub initial_max_streams_bidi: u64,
    pub initial_max_streams_uni: u64,
    pub cc_algorithm: CcAlgorithm,
}

/// The transport parameters that `conf` asks for: the timeouts in
/// milliseconds, everything else as it stands.
pub open spec fn transport_of(conf: QuicConf) -> TransportParams {
    TransportParams {
        max_idle_timeout: secs_to_ms(conf.max_idle_timeout),
        max_handshake_timeout: secs_to_ms(conf.max_handshake_timeout),
        max_concurrent_conns: conf.max_concurrent_conns,
        recv_udp_payload_size: conf.recv_udp_payload_size,
        send_udp_payload_size: conf.send_udp_payload_size,
        initial_max_data: conf.initial_max_data,
        initial_max_stream_data_bidi_local: conf.initial_max_stream_data_bidi_local,
        initial_max_stream_data_bidi_remote: conf.initial_max_stream_data_bidi_remote,
        initial_max_stream_data_uni: conf.initial_max_stream_data_uni,
        initial_max_streams_bidi: conf.initial_max_streams_bidi,
        initial_max_streams_uni: conf.initial_max_streams_uni,
        cc_algorithm: conf.cc_algorithm,
    }
}

/// Transport parameters (the transport and flow-control part of the stack's
/// configuration, and its congestion control).
pub fn transport_params(conf: &QuicConf) -> (r: TransportParams)
    ensures
        r == transport_of(*conf),
        conf.max_idle_timeout * 1000 <= u64::MAX ==> r.max_idle_timeout == conf.max_idle_timeout * 1000,
        conf.max_idle_timeout * 1000 > u64::MAX ==> r.max_idle_timeout == u64::MAX,
        conf.max_handshake_timeout * 1000 <= u64::MAX ==> r.max_handshake_timeout
            == conf.max_handshake_timeout * 1000,
        conf.max_handshake_timeout * 1000 > u64::MAX ==> r.max_handshake_timeout == u64::MAX,
        r.max_concurrent_conns == conf.max_concurrent_conns,
        r.recv_udp_payload_size == conf.recv_udp_payload_size,
        r.send_udp_payload_size == conf.send_udp_payload_size,
        r.initial_max_data == conf.initial_max_data,
        r.initial_max_stream_data_bidi_local == conf.initial_max_stream_data_bidi_local,
        r.initial_max_stream_data_bidi_remote == conf.initial_max_stream_data_bidi_remote,
        r.initial_max_stream_data_uni == conf.initial_max_stream_data_uni,
        r.initial_max_streams_bidi == conf.initial_max_streams_bidi,
        r.initial_max_streams_uni == conf.initial_max_streams_uni,
        r.cc_algorithm == conf.cc_algorithm,
{
    TransportParams {
        max_idle_timeout: secs_as_ms(conf.max_idle_timeout),
        max_handshake_timeout: secs_as_ms(conf.max_handshake_timeout),
        max_concurrent_conns: conf.max_concurrent_conns,
        recv_udp_payload_size: conf.recv_udp_payload_size,
        send_udp_payload_size: conf.send_udp_payload_size,
        initial_max_data: conf.initial_max_data,
        initial_max_stream_data_bidi_local: conf.initial_max_stream_data_bidi_local,
        initial_max_stream_data_bidi_remote: conf.initial_max_stream_data_bidi_remote,
        initial_max_stream_data_uni: conf.initial_max_stream_data_uni,
        initial_max_streams_bidi: conf.initial_max_streams_bidi,
        initial_max_streams_uni: conf.initial_max_streams_uni,
        cc_algorithm: conf.cc_algorithm,
    }
}

/// The ALPN list encodes each protocol name as its UTF-8 bytes, in order.
pub open spec fn is_alpn_of(r: Seq<Vec<u8>>, alpn: Seq<String>) -> bool {
    &&& r.len() == alpn.len()
    &&& forall|i: int| 0 <= i < r.len() ==> #[trigger] r[i]@ == encode_utf8(alpn[i]@)
}

/// ALPN strings as byte strings.
pub fn alpn_vec(alpn: &Vec<String>) -> (r: Vec<Vec<u8>>)
    ensures
        is_alpn_of(r@, alpn@),
{
    let mut r: Vec<Vec<u8>> = Vec::new();
    let mut i: usize = 0;
    while i < alpn.len()
        invariant
            i <= alpn@.len(),
            r@.len() == i,
            forall|j: int| 0 <= j < i ==> #[trigger] r@[j]@ == encode_utf8(alpn@[j]@),
        decreases alpn@.len() - i,
    {
        let bytes = alpn[i].as_str().as_bytes();
        r.push(slice_to_vec(bytes));
        i = i + 1;
    }
    r
}

/// Server-side TLS settings: certificate and key are required.
#[derive(Debug)]
pub struct ServerTls {
    /// PEM certificate file
    pub cert_file: String,
    /// PEM private-key file
    pub key_file: String,
    /// ALPN protocols as bytes
    pub alpn: Vec<Vec<u8>>,
    /// Whether 0-RTT early data is enabled
    pub enable_early_data: bool,
    /// CA certificates to load, if any
    pub ca_file: Option<String>,
}

/// Client-side TLS settings.
#[derive(Debug)]
pub struct ClientTls {
    /// ALPN protocols as bytes
    pub alpn: Vec<Vec<u8>>,
    /// Whether 0-RTT early data is enabled
    pub enable_early_data: bool,
    /// Whether to verify the peer; `None` leaves the stack's default
    pub verify: Option<bool>,
    /// CA certificates to load, if any
    pub ca_file: Option<String>,
}

/// The error is the QUIC configuration error with message `msg`.
pub open spec fn is_config_err(e: Error, msg: Seq<char>) -> bool {
    e matches Error::Quic(QuicError::Config(m)) && m@ == msg
}

/// What `server_tls` gives for `conf`: an error naming the first missing
/// file (certificate, then key), or the settings.
pub open spec fn server_tls_outcome(conf: TlsConf, r: Result<ServerTls, Error>) -> bool {
    match (conf.cert_file, conf.key_file) {
        (None, _) => r matches Err(e) && is_config_err(e, SERVER_NEEDS_CERT@),
        (Some(_), None) => r matches Err(e) && is_config_err(e, SERVER_NEEDS_KEY@),
        (Some(cert), Some(key)) => r matches Ok(t) && t.cert_file == cert && t.key_file == key
            && is_alpn_of(t.alpn@, conf.alpn@) && t.enable_early_data == conf.enable_early_data
            && t.ca_file == conf.ca_file,
    }
}

/// Server TLS settings from the TLS configuration; certificate and key are
/// required.
pub fn server_tls(conf: &TlsConf) -> (r: Result<ServerTls, Error>)
    ensures
        server_tls_outcome(*conf, r),
        r is Ok <==> conf.cert_file is Some && conf.key_file is Some,
        r matches Ok(t) ==> t.ca_file == conf.ca_file && Some(t.cert_file) == conf.cert_file
            && Some(t.key_file) == conf.key_file && t.enable_early_data == conf.enable_early_data,
{
    let cert = match &conf.cert_file {
        Some(c) => c.clone(),
        None => return Err(config_err(SERVER_NEEDS_CERT)),
    };
    let key = match &conf.key_file {
        Some(k) => k.clone(),
        None => return Err(config_err(SERVER_NEEDS_KEY)),
    };
    Ok(ServerTls {
        cert_file: cert,
        key_file: key,
        alpn: alpn_vec(&conf.alpn),
        enable_early_data: conf.enable_early_data,
        ca_file: crate::proto::clone_opt_string(&conf.ca_file),
    })
}

/// Client TLS settings. Without a TLS configuration: no ALPN, no early
/// data, verification and CA left to the stack.
pub fn client_tls(conf: &Option<TlsConf>) -> (r: ClientTls)
    ensures
        match conf {
            Some(t) => is_alpn_of(r.alpn@, t.alpn@) && r.enable_early_data == t.enable_early_data
                && r.verify == Some(t.verify) && r.ca_file == t.ca_file,
            None => r.alpn@.len() == 0 && !r.enable_early_data && r.verify is None && r.ca_file is None,
        },
{
    match conf {
        Some(t) => ClientTls {
            alpn: alpn_vec(&t.alpn),
            enable_early_data: t.enable_early_data,
            verify: Some(t.verify),
            ca_file: crate::proto::clone_opt_string(&t.ca_file),
        },
        None => ClientTls { alpn: Vec::new(), enable_early_data: false, verify: None, ca_file: None },
    }
}

/// Everything a server's QUIC stack is built with.
#[derive(Debug)]
pub struct ServerPlan {
    pub transport: TransportParams,
    pub tls: ServerTls,
}

/// Everything a client's QUIC stack is built with.
#[derive(Debug)]
pub struct ClientPlan {
    pub transport: TransportParams,
    pub tls: ClientTls,
}

/// What `server_plan` gives for `conf`: without TLS settings an error;
/// otherwise the outcome of the TLS settings, with the transport parameters.
pub open spec fn server_plan_outcome(conf: QuicConf, r: Result<ServerPlan, Error>) -> bool {
    match conf.tls {
        None => r matches Err(e) && is_config_err(e, SERVER_NEEDS_TLS@),
        Some(t) => match r {
            Ok(p) => p.transport == transport_of(conf) && server_tls_outcome(t, Ok(p.tls)),
            Err(e) => server_tls_outcome(t, Err(e)),
        },
    }
}

/// The server configuration from `conf`: TLS with certificate and key is
/// required.
pub fn server_plan(conf: &QuicConf) -> (r: Result<ServerPlan, Error>)
    ensures
        server_plan_outcome(*conf, r),
        r is Ok <==> (conf.tls is Some && conf.tls->0.cert_file is Some && conf.tls->0.key_file is Some),
        r matches Ok(p) ==> p.tls.ca_file == conf.tls->0.ca_file && Some(p.tls.cert_file)
            == conf.tls->0.cert_file && Some(p.tls.key_file) == conf.tls->0.key_file
            && p.transport.initial_max_stream_data_bidi_local == conf.initial_max_stream_data_bidi_local
            && p.transport.initial_max_stream_data_bidi_remote == conf.initial_max_stream_data_bidi_remote,
{
    let tls_conf = match &conf.tls {
        Some(t) => t,
        None => return Err(config_err(SERVER_NEEDS_TLS)),
    };
    let tls = server_tls(tls_conf)?;
    Ok(ServerPlan { transport: transport_params(conf), tls })
}

/// The client configuration from `conf`; TLS is optional.
pub fn client_plan(conf: &QuicConf) -> (r: ClientPlan)
    ensures
        r.transport == transport_of(*conf),
        match conf.tls {
            Some(t) => is_alpn_of(r.tls.alpn@, t.alpn@) && r.tls.enable_early_data == t.enable_early_data
                && r.tls.verify == Some(t.verify) && r.tls.ca_file == t.ca_file,
            None => r.tls.alpn@.len() == 0 && !r.tls.enable_early_data && r.tls.verify is None
                && r.tls.ca_file is None,
        },
{
    ClientPlan { transport: transport_params(conf), tls: client_tls(&conf.tls) }
}

/// Seconds become milliseconds: the exact product when it fits in a `u64`,
/// `u64::MAX` otherwise; the conversion never decreases.
pub proof fn law_secs_to_ms(a: u64, b: u64)
    ensures
        a * 1000 <= u64::MAX ==> secs_to_ms(a) == a * 1000,
        a * 1000 > u64::MAX ==> secs_to_ms(a) == u64::MAX,
        a <= b ==> secs_to_ms(a) <= secs_to_ms(b),
{
    assert(a <= b ==> a * 1000 <= b * 1000) by (nonlinear_arith);
}

/// Every transport parameter carries the configuration field of the same
/// name; only the two timeouts change unit (seconds to milliseconds).
pub proof fn law_transport_fields(conf: QuicConf)
    ensures
        transport_of(conf).max_idle_timeout == secs_to_ms(conf.max_idle_timeout),
        transport_of(conf).max_handshake_timeout == secs_to_ms(conf.max_handshake_timeout),
        transport_of(conf).max_concurrent_conns == conf.max_concurrent_conns,
        transport_of(conf).recv_udp_payload_size == conf.recv_udp_payload_size,
        transport_of(conf).send_udp_payload_size == conf.send_udp_payload_size,
        transport_of(conf).initial_max_data == conf.initial_max_data,
        transport_of(conf).initial_max_stream_data_bidi_local == conf.initial_max_stream_data_bidi_local,
        transport_of(conf).initial_max_stream_data_bidi_remote == conf.initial_max_stream_data_bidi_remote,
        transport_of(conf).initial_max_stream_data_uni == conf.initial_max_stream_data_uni,
        transport_of(conf).initial_max_streams_bidi == conf.initial_max_streams_bidi,
        transport_of(conf).initial_max_streams_uni == conf.initial_max_streams_uni,
        transport_of(conf).cc_algorithm == conf.cc_algorithm,
{
}

/// The ALPN list has one entry per protocol, in order, each the UTF-8 bytes
/// of its name.
pub proof fn law_alpn(r: Seq<Vec<u8>>, alpn: Seq<String>, i: int)
    requires
        is_alpn_of(r, alpn),
        0 <= i < alpn.len(),
    ensures
        r.len() == alpn.len(),
        r[i]@ == encode_utf8(alpn[i]@),
{
}

/// Server TLS settings are refused exactly when the certificate or the key
/// is missing (the certificate is reported first); with both, they are
/// accepted whatever the CA file, and carry the files and options given.
pub proof fn law_server_tls(conf: TlsConf, r: Result<ServerTls, Error>)
    requires
        server_tls_outcome(conf, r),
    ensures
        r is Ok <==> conf.cert_file is Some && conf.key_file is Some,
        conf.cert_file is None ==> r == Err::<ServerTls, Error>(r->Err_0) && is_config_err(
            r->Err_0,
            SERVER_NEEDS_CERT@,
        ),
        conf.cert_file is Some && conf.key_file is None ==> r is Err && is_config_err(
            r->Err_0,
            SERVER_NEEDS_KEY@,
        ),
        r is Ok ==> r->Ok_0.ca_file == conf.ca_file && Some(r->Ok_0.cert_file) == conf.cert_file
            && Some(r->Ok_0.key_file) == conf.key_file && r->Ok_0.enable_early_data
            == conf.enable_early_data && is_alpn_of(r->Ok_0.alpn@, conf.alpn@),
{
}

/// A server plan exists exactly when TLS settings with certificate and key
/// are given; it carries the transport parameters of the settings and their
/// TLS files.
pub proof fn law_server_plan(conf: QuicConf, r: Result<ServerPlan, Error>)
    requires
        server_plan_outcome(conf, r),
    ensures
        r is Ok <==> (conf.tls is Some && conf.tls->0.cert_file is Some && conf.tls->0.key_file is Some),
        conf.tls is None ==> r is Err && is_config_err(r->Err_0, SERVER_NEEDS_TLS@),
        r is Ok ==> r->Ok_0.transport == transport_of(conf) && r->Ok_0.tls.ca_file == conf.tls->0.ca_file
            && Some(r->Ok_0.tls.cert_file) == conf.tls->0.cert_file && Some(r->Ok_0.tls.key_file)
            == conf.tls->0.key_file,
{
    if let Some(t) = conf.tls {
        law_server_tls(t, match r {
            Ok(p) => Ok(p.tls),
            Err(e) => Err(e),
        });
    }
}

/// The error `is_config_err` names is the QUIC configuration error carrying
/// exactly that message.
pub proof fn law_config_err(e: Error, msg: Seq<char>)
    ensures
        is_config_err(e, msg) <==> (e is Quic && e->Quic_0 is Config && e->Quic_0->Config_0@ == msg),
{
}

} // verus!
