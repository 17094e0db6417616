//! Errors of the vauid server and client.

use serde_json::Error as JsonError;
use vstd::prelude::*;
use vstd::std_specs::convert::FromSpecImpl;

verus! {

/// `std::io::Error`, opaque to Verus.
#[verifier::external_type_specification]
#[verifier::external_body]
pub struct ExIoError(std::io::Error);

/// `serde_json::Error`, opaque to Verus.
#[verifier::external_type_specification]
#[verifier::external_body]
pub struct ExJsonError(JsonError);

/// A socket address as plain values: IPv4 or IPv6 address and port.
#[derive(Debug, Clone, Copy, PartialEq, Eq)]
pub enum NetAddr {
    V4 { octets: [u8; 4], port: u16 },
    V6 { octets: [u8; 16], port: u16, flowinfo: u32, scope_id: u32 },
}

/// Error of the library and of the programs built on it.
#[derive(Debug)]
pub enum Error {
    /// Any other error, by its message
    Other(String),
    /// QUIC error
    Quic(QuicError),
    /// I/O error
    IO(std::io::Error),
    /// JSON error
    Serde(JsonError),
    /// Configuration error, by its message
    Config(String),
}

/// QUIC error.
#[derive(Debug)]
pub enum QuicError {
    /// Sending: no socket is bound to this local address
    SendAddrNotFound { addr: NetAddr, buf: Option<Vec<u8>> },
    /// Receiving: no socket is bound to this local address
    RecvAddrNotFound { addr: NetAddr, buf: Option<Vec<u8>> },
    /// Configuration error, by its message
    Config(String),
}

/// Result with the library's error.
pub type Result<T> = std::result::Result<T, Error>;

impl From<std::io::Error> for Error {
    fn from(value: std::io::Error) -> (r: Self)
        ensures
            r == Error::IO(value),
    {
        Error::IO(value)
    }
}

impl FromSpecImpl<std::io::Error> for Error {
    open spec fn obeys_from_spec() -> bool {
        true
    }

    open spec fn from_spec(v: std::io::Error) -> Error {
        Error::IO(v)
    }
}

impl From<QuicError> for Error {
    fn from(value: QuicError) -> (r: Self)
        ensures
            r == Error::Quic(value),
    {
        Error::Quic(value)
    }
}

impl FromSpecImpl<QuicError> for Error {
    open spec fn obeys_from_spec() -> bool {
        true
    }

    open spec fn from_spec(v: QuicError) -> Error {
        Error::Quic(v)
    }
}

impl From<JsonError> for Error {
    fn from(value: JsonError) -> (r: Self)
        ensures
            r == Error::Serde(value),
    {
        Error::Serde(value)
    }
}

impl FromSpecImpl<JsonError> for Error {
    open spec fn obeys_from_spec() -> bool {
        true
    }

    open spec fn from_spec(v: JsonError) -> Error {
        Error::Serde(v)
    }
}

/// A QUIC configuration error with message `msg`.
pub fn config_err(msg: &str) -> (r: Error)
    ensures
        r matches Error::Quic(QuicError::Config(m)) && m@ == msg@,
{
    Error::Quic(QuicError::Config(msg.to_owned()))
}

} // verus!
