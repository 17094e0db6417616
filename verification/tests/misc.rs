use vauid::error::{config_err, Error, QuicError};
use vauid::log::request_id;
use vauid::p2p::client::ClientState;

#[test]
fn request_ids_are_uuid_v4() {
    let a = request_id();
    let b = request_id();
    assert_ne!(a, b);
    for id in [a, b] {
        let chars: Vec<char> = id.chars().collect();
        assert_eq!(chars.len(), 36);
        for (i, c) in chars.iter().enumerate() {
            match i {
                8 | 13 | 18 | 23 => assert_eq!(*c, '-'),
                14 => assert_eq!(*c, '4'),
                19 => assert!("89ab".contains(*c)),
                _ => assert!(c.is_ascii_hexdigit() && !c.is_ascii_uppercase()),
            }
        }
    }
}

#[test]
fn client_state_records_echo() {
    let mut s = ClientState::default();
    assert!(!s.established && s.stream_id.is_none() && !s.sent && !s.is_done());
    s.record_received(Vec::new());
    assert!(!s.is_done());
    s.record_received(b"hello vauid".to_vec());
    assert!(s.is_done());
    assert_eq!(s.received.as_deref(), Some(&b"hello vauid"[..]));
}

#[test]
fn errors_wrap() {
    let e: Error = QuicError::Config("x".into()).into();
    assert!(matches!(e, Error::Quic(QuicError::Config(ref m)) if m == "x"));
    let e: Error = std::io::Error::other("io").into();
    assert!(matches!(e, Error::IO(_)));
    let json = serde_json::from_str::<u8>("nope").unwrap_err();
    let e: Error = json.into();
    assert!(matches!(e, Error::Serde(_)));
    assert!(matches!(config_err("m"), Error::Quic(QuicError::Config(ref m)) if m == "m"));
}
