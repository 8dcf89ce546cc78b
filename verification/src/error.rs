//! The error taxonomy surfaced to callers.
//!
//! Callers can tell from the variant whether to fix configuration (an invalid
//! domain), reconnect (a transport or protocol failure), or stop misusing a
//! half-closed stream.

use vstd::prelude::*;

verus! {

/// A failure reported by the session engine while processing records.
#[derive(Debug, Copy, Clone, PartialEq, Eq, Structural)]
pub enum ProtocolError {
    /// The peer presented a certificate that no configured trust anchor covers.
    BadCertificate,
    /// A record arrived whose framing or kind is not recognised.
    MalformedRecord,
    /// A record arrived that the current handshake phase does not allow.
    UnexpectedRecord,
}

/// An error returned from stream or connector operations.
#[derive(Debug, Copy, Clone, PartialEq, Eq, Structural)]
pub enum TlsError {
    /// The server name handed to `connect` is not a valid DNS name.
    InvalidDomain,
    /// The transport failed; the code is the one the transport reported.
    Transport(u8),
    /// The session engine reported a protocol failure.
    Protocol(ProtocolError),
    /// A write was attempted on a stream whose write direction is shut.
    WriteClosed,
}

impl TlsError {
    /// The description that `describe` returns.
    pub open spec fn spec_describe(self) -> Seq<char> {
        match self {
            TlsError::InvalidDomain => "invalid domain"@,
            TlsError::Transport(_) => "transport error"@,
            TlsError::Protocol(ProtocolError::BadCertificate) => "bad certificate"@,
            TlsError::Protocol(ProtocolError::MalformedRecord) => "malformed record"@,
            TlsError::Protocol(ProtocolError::UnexpectedRecord) => "unexpected record"@,
            TlsError::WriteClosed => "stream closed for writing"@,
        }
    }

    /// A short description of the error.
    pub fn describe(&self) -> (r: &'static str)
        ensures
            r@ == self.spec_describe(),
    {
        match *self {
            TlsError::InvalidDomain => "invalid domain",
            TlsError::Transport(_) => "transport error",
            TlsError::Protocol(ProtocolError::BadCertificate) => "bad certificate",
            TlsError::Protocol(ProtocolError::MalformedRecord) => "malformed record",
            TlsError::Protocol(ProtocolError::UnexpectedRecord) => "unexpected record",
            TlsError::WriteClosed => "stream closed for writing",
        }
    }
}

} // verus!
