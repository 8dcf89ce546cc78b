//! Connection state for an established TLS stream.
//!
//! The read and write directions shut down independently; once a direction is
//! shut it never reopens, and when both are shut the state is `FullyShutdown`.

use vstd::prelude::*;

verus! {

/// The lifecycle state of a TLS stream.
///
/// `EarlyData` marks a client stream that is still allowed to buffer
/// opportunistic application data while the handshake finishes; it behaves
/// like `Stream` for the shutdown bookkeeping below.
#[derive(Debug, Copy, Clone, PartialEq, Eq, Structural)]
pub enum TlsState {
    EarlyData,
    Stream,
    ReadShutdown,
    WriteShutdown,
    FullyShutdown,
}

impl TlsState {
    /// Whether the read direction is still open.
    pub open spec fn spec_readable(self) -> bool {
        !(self is ReadShutdown || self is FullyShutdown)
    }

    /// Whether the write direction is still open.
    pub open spec fn spec_writeable(self) -> bool {
        !(self is WriteShutdown || self is FullyShutdown)
    }

    /// The state after marking the read direction shut.
    pub open spec fn spec_shutdown_read(self) -> TlsState {
        if self is WriteShutdown || self is FullyShutdown {
            TlsState::FullyShutdown
        } else {
            TlsState::ReadShutdown
        }
    }

    /// The state after marking the write direction shut.
    pub open spec fn spec_shutdown_write(self) -> TlsState {
        if self is ReadShutdown || self is FullyShutdown {
            TlsState::FullyShutdown
        } else {
            TlsState::WriteShutdown
        }
    }

    /// Mark the read direction shut; if the write direction was already shut,
    /// the stream becomes fully shut.
    pub fn shutdown_read(&mut self)
        ensures
            *final(self) == old(self).spec_shutdown_read(),
    {
        match *self {
            TlsState::WriteShutdown | TlsState::FullyShutdown => *self = TlsState::FullyShutdown,
            _ => *self = TlsState::ReadShutdown,
        }
    }

    /// Mark the write direction shut; if the read direction was already shut,
    /// the stream becomes fully shut.
    pub fn shutdown_write(&mut self)
        ensures
            *final(self) == old(self).spec_shutdown_write(),
    {
        match *self {
            TlsState::ReadShutdown | TlsState::FullyShutdown => *self = TlsState::FullyShutdown,
            _ => *self = TlsState::WriteShutdown,
        }
    }

    /// Whether plaintext may still be submitted for encryption.
    pub fn writeable(&self) -> (r: bool)
        ensures
            r == self.spec_writeable(),
    {
        match *self {
            TlsState::WriteShutdown | TlsState::FullyShutdown => false,
            _ => true,
        }
    }

    /// Whether plaintext may still be read out of the stream.
    pub fn readable(self) -> (r: bool)
        ensures
            r == self.spec_readable(),
    {
        match self {
            TlsState::ReadShutdown | TlsState::FullyShutdown => false,
            _ => true,
        }
    }
}

/// Shutting a direction down is monotonic: neither transition ever reopens a
/// direction, and shutting the second direction yields `FullyShutdown`.
pub proof fn lemma_shutdown_monotonic(s: TlsState)
    ensures
        !s.spec_shutdown_read().spec_readable(),
        s.spec_shutdown_read().spec_writeable() == s.spec_writeable(),
        !s.spec_shutdown_write().spec_writeable(),
        s.spec_shutdown_write().spec_readable() == s.spec_readable(),
        !s.spec_readable() ==> !s.spec_shutdown_write().spec_readable(),
        !s.spec_writeable() ==> !s.spec_shutdown_read().spec_writeable(),
{
}

/// Shutting the same direction down twice is the same as doing it once.
pub proof fn lemma_shutdown_idempotent(s: TlsState)
    ensures
        s.spec_shutdown_write().spec_shutdown_write() == s.spec_shutdown_write(),
        s.spec_shutdown_read().spec_shutdown_read() == s.spec_shutdown_read(),
{
}

} // verus!
