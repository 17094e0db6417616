use vauid::conf::load::{blank, load_action, LoadAction};
use vauid::conf::{CcAlgorithm, LogConf, LogLevel, QuicConf, ServerConf, TlsConf};
use vauid::conf::{QUIC_CONF_DIR, QUIC_CONF_PATH, SERVER_CONF_PATH};
use std::path::PathBuf;

#[test]
fn quic_conf_defaults() {
    let conf = QuicConf::default();
    assert_eq!(conf.max_idle_timeout, 0);
    assert_eq!(conf.max_handshake_timeout, 30);
    assert_eq!(conf.max_concurrent_conns, 1_000_000);
    assert_eq!(conf.recv_udp_payload_size, 65_527);
    assert_eq!(conf.send_udp_payload_size, 1_200);
    assert_eq!(conf.initial_max_data, 10_485_760);
    assert_eq!(conf.initial_max_stream_data_bidi_local, 5_242_880);
    assert_eq!(conf.initial_max_stream_data_bidi_remote, 2_097_152);
    assert_eq!(conf.initial_max_stream_data_uni, 1_048_576);
    assert_eq!(conf.initial_max_streams_bidi, 200);
    assert_eq!(conf.initial_max_streams_uni, 100);
    assert_eq!(conf.cc_algorithm, CcAlgorithm::Bbr);
    assert!(conf.tls.is_none());
}

#[test]
fn server_and_log_conf_defaults() {
    let conf = ServerConf::default();
    assert_eq!(conf.addr, "127.0.0.1");
    assert_eq!(conf.port, 8080);
    assert_eq!(conf.quic, PathBuf::from("conf/quic.conf.toml"));
    let log = LogConf::default();
    assert_eq!(log.level, LogLevel::Info);
    assert_eq!(log.output, PathBuf::from("log/vauid.log"));
    assert!(!log.output_enabled);
    assert_eq!(LogLevel::default(), LogLevel::Info);
}

#[test]
fn log_level_names() {
    let all = [
        (LogLevel::Trace, "trace"),
        (LogLevel::Debug, "debug"),
        (LogLevel::Info, "info"),
        (LogLevel::Warn, "warn"),
        (LogLevel::Error, "error"),
    ];
    for (level, name) in all {
        assert_eq!(level.as_str(), name);
    }
}

#[test]
fn conf_paths() {
    assert_eq!(QUIC_CONF_PATH, "conf/quic.conf.toml");
    assert_eq!(SERVER_CONF_PATH, "conf/server.conf.toml");
    assert_eq!(QUIC_CONF_DIR, "conf");
}

#[test]
fn tls_conf_default_sets_nothing() {
    let tls = TlsConf::default();
    assert!(tls.cert_file.is_none() && tls.key_file.is_none() && tls.ca_file.is_none());
    assert!(tls.alpn.is_empty());
    assert!(!tls.enable_early_data && !tls.verify);
}

#[test]
fn cc_names() {
    let all = [
        (CcAlgorithm::Cubic, "cubic"),
        (CcAlgorithm::Bbr, "bbr"),
        (CcAlgorithm::Bbr3, "bbr3"),
        (CcAlgorithm::Copa, "copa"),
        (CcAlgorithm::Dummy, "dummy"),
    ];
    for (cc, name) in all {
        assert_eq!(cc.as_str(), name);
    }
    assert_eq!(CcAlgorithm::default(), CcAlgorithm::Bbr);
}

#[test]
fn missing_or_blank_file_gets_defaults() {
    assert_eq!(load_action(None), LoadAction::WriteDefault);
    assert_eq!(load_action(Some("")), LoadAction::WriteDefault);
    assert_eq!(load_action(Some(" \n\t\r\n")), LoadAction::WriteDefault);
    assert_eq!(load_action(Some("\u{3000}\u{a0}\u{2028}")), LoadAction::WriteDefault);
    assert_eq!(load_action(Some("max_handshake_timeout = 30\n")), LoadAction::Parse);
    assert_eq!(load_action(Some("  x  ")), LoadAction::Parse);
    assert_eq!(load_action(Some("\u{200b}")), LoadAction::Parse);
}

#[test]
fn blank_agrees_with_trim() {
    for code in 0u32..=0x10FFFF {
        if let Some(c) = char::from_u32(code) {
            let s = c.to_string();
            assert_eq!(blank(&s), s.trim().is_empty(), "char U+{code:04X}");
        }
    }
    assert!(blank(""));
    assert!(!blank(" a "));
}
