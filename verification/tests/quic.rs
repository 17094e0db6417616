use vauid::conf::{CcAlgorithm, QuicConf, TlsConf};
use vauid::error::{Error, QuicError};
use vauid::quic::conf::{
    alpn_vec, client_plan, secs_as_ms, server_plan, server_tls, transport_params,
    SERVER_NEEDS_CERT, SERVER_NEEDS_KEY, SERVER_NEEDS_TLS,
};
use vauid::quic::socket::{after_send, SendStep};

fn config_message(e: &Error) -> Option<&str> {
    match e {
        Error::Quic(QuicError::Config(m)) => Some(m.as_str()),
        _ => None,
    }
}

/// A server configuration without TLS is refused.
#[test]
fn server_requires_tls() {
    let r = server_plan(&QuicConf::default());
    assert!(matches!(r, Err(Error::Quic(QuicError::Config(_)))));
    assert_eq!(config_message(&r.unwrap_err()), Some(SERVER_NEEDS_TLS));
}

/// A server TLS configuration without certificate is refused.
#[test]
fn server_requires_cert() {
    let conf = QuicConf {
        tls: Some(TlsConf {
            alpn: vec!["vauid".into()],
            ..Default::default()
        }),
        ..Default::default()
    };
    let r = server_plan(&conf);
    assert!(r.is_err());
    assert_eq!(config_message(&r.unwrap_err()), Some(SERVER_NEEDS_CERT));
}

#[test]
fn server_requires_key() {
    let tls = TlsConf {
        cert_file: Some("cert.pem".into()),
        ..Default::default()
    };
    let r = server_tls(&tls);
    assert_eq!(config_message(&r.unwrap_err()), Some(SERVER_NEEDS_KEY));
}

#[test]
fn server_plan_with_cert_and_key() {
    let conf = QuicConf {
        max_idle_timeout: 5,
        cc_algorithm: CcAlgorithm::Cubic,
        tls: Some(TlsConf {
            cert_file: Some("cert.pem".into()),
            key_file: Some("key.pem".into()),
            ca_file: Some("ca".into()),
            alpn: vec!["vauid".into(), "h3".into()],
            enable_early_data: true,
            verify: false,
        }),
        ..Default::default()
    };
    let plan = server_plan(&conf).expect("server plan");
    assert_eq!(plan.tls.cert_file, "cert.pem");
    assert_eq!(plan.tls.key_file, "key.pem");
    assert_eq!(plan.tls.ca_file.as_deref(), Some("ca"));
    assert_eq!(plan.tls.alpn, vec![b"vauid".to_vec(), b"h3".to_vec()]);
    assert!(plan.tls.enable_early_data);
    assert_eq!(plan.transport.max_idle_timeout, 5_000);
    assert_eq!(plan.transport.max_handshake_timeout, 30_000);
    assert_eq!(plan.transport.cc_algorithm, CcAlgorithm::Cubic);
}

/// A client configuration needs no TLS.
#[test]
fn client_builds_without_tls() {
    let plan = client_plan(&QuicConf::default());
    assert!(plan.tls.alpn.is_empty());
    assert!(!plan.tls.enable_early_data);
    assert_eq!(plan.tls.verify, None);
    assert_eq!(plan.tls.ca_file, None);
    assert_eq!(plan.transport.max_handshake_timeout, 30_000);
    assert_eq!(plan.transport.initial_max_data, 10_485_760);
}

#[test]
fn client_plan_with_tls() {
    let conf = QuicConf {
        tls: Some(TlsConf {
            alpn: vec!["vauid".into()],
            verify: true,
            ..Default::default()
        }),
        ..Default::default()
    };
    let plan = client_plan(&conf);
    assert_eq!(plan.tls.alpn, vec![b"vauid".to_vec()]);
    assert_eq!(plan.tls.verify, Some(true));
}

#[test]
fn seconds_become_saturated_milliseconds() {
    assert_eq!(secs_as_ms(0), 0);
    assert_eq!(secs_as_ms(30), 30_000);
    assert_eq!(secs_as_ms(u64::MAX / 1000), (u64::MAX / 1000) * 1000);
    assert_eq!(secs_as_ms(u64::MAX / 1000 + 1), u64::MAX);
    assert_eq!(secs_as_ms(u64::MAX), u64::MAX);
    let conf = QuicConf {
        max_idle_timeout: u64::MAX,
        ..Default::default()
    };
    assert_eq!(transport_params(&conf).max_idle_timeout, u64::MAX);
}

#[test]
fn alpn_is_utf8() {
    let alpn = vec!["vauid".to_string(), "h3".to_string(), "é".to_string()];
    assert_eq!(alpn_vec(&alpn), vec![b"vauid".to_vec(), b"h3".to_vec(), vec![0xc3, 0xa9]]);
    assert!(alpn_vec(&Vec::new()).is_empty());
}

#[test]
fn send_loop_counts_whole_packets() {
    assert_eq!(after_send(0, 1200, Some(1200)), SendStep::Next(1));
    assert_eq!(after_send(3, 1200, Some(600)), SendStep::Stop(3));
    assert_eq!(after_send(2, 1200, None), SendStep::Stop(2));
}
