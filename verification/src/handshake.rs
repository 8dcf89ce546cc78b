//! The handshake driver: a small state machine that repeatedly makes one
//! bounded unit of progress until the session engine reports the handshake
//! complete, then yields the established stream.
//!
//! Each `poll` performs at most one transport read attempt and one write
//! attempt, and suspends by returning `Pending`; a pending driver keeps every
//! byte of partial progress in the session's buffers, so resuming later loses
//! nothing. A protocol or transport failure during the handshake is terminal:
//! the driver resolves with the error and the connection is discarded.

use vstd::prelude::*;

use crate::error::{ProtocolError, TlsError};
use crate::state::TlsState;
use crate::session::KIND_HELLO_SERVER;
use crate::stream::{Progress, TlsStream};

verus! {

/// The outcome of one handshake-driver step.
pub enum HandshakePoll {
    /// The handshake completed; here is the established stream.
    Ready(TlsStream),
    /// The transport would block; poll again when it is ready.
    Pending,
    /// The handshake failed terminally; the connection is unusable.
    Failed(TlsError),
}

/// A handshake in progress; `inner` is consumed once it resolves.
pub struct MidHandshake {
    /// The stream being driven; taken out when the driver resolves.
    pub inner: Option<TlsStream>,
}

impl MidHandshake {
    /// Structural validity.
    pub open spec fn wf(self) -> bool {
        self.inner matches Some(s) ==> s.wf()
    }

    /// Whether the driver has not resolved yet.
    pub open spec fn is_pending(self) -> bool {
        self.inner is Some
    }

    /// Start driving the handshake of the given stream.
    pub fn new(stream: TlsStream) -> (r: MidHandshake)
        requires
            stream.wf(),
        ensures
            r.wf(),
            r.inner == Some(stream),
    {
        MidHandshake { inner: Some(stream) }
    }

    /// One bounded step: if the handshake is already complete, resolve; else
    /// make at most one transport read attempt and one write attempt, then
    /// either resolve, fail terminally, or suspend with all partial progress
    /// retained in the session's buffers.
    pub fn poll(&mut self) -> (r: HandshakePoll)
        requires
            old(self).wf(),
            old(self).is_pending(),
        ensures
            final(self).wf(),
            (r matches HandshakePoll::Ready(s) ==> s.wf() && s.session.complete && !(s.state
                is EarlyData) && final(self).inner is None),
            r is Pending ==> final(self).inner is Some,
            (r matches HandshakePoll::Failed(e) ==> final(self).inner is None && (e is Transport
                || e is Protocol)),
            (old(self).inner matches Some(s0) ==> final(self).inner matches Some(s1)
                ==> s0.cipher_out().is_prefix_of(s1.cipher_out())
                && s0.session.plain_in@.is_prefix_of(s1.session.plain_in@)
                && s1.state == s0.state && s0.bounded_tries(s1)),
            (old(self).inner matches Some(s0) ==> r matches HandshakePoll::Ready(s1)
                ==> s0.cipher_out().is_prefix_of(s1.cipher_out()) && s0.bounded_tries(s1)
                && s1.state == (if s0.state is EarlyData { TlsState::Stream } else { s0.state })),
            (old(self).inner matches Some(s0) ==> s0.session.complete ==> r is Ready),
            (final(self).inner matches Some(s1) ==> !s1.session.complete),
            (old(self).inner matches Some(s0) ==> final(self).inner matches Some(s1) ==> (
            s0.can_write_now() ==> s0.wrote_exact(s1)) && (!s0.write_would_fault(true)
                && s0.can_read_now() ==> s0.read_exact(s1))),
            (old(self).inner matches Some(s0) ==> r matches HandshakePoll::Ready(s1)
                ==> !s0.session.complete ==> (s0.can_write_now() ==> s0.wrote_exact(s1)) && (
                !s0.write_would_fault(true) && s0.can_read_now() ==> s0.read_exact(s1))),
            (old(self).inner matches Some(s0) ==> s0.transport.write_fault matches Some(c)
                ==> !s0.session.complete && s0.session.send_buf@.len() >= 1 ==> r
                == HandshakePoll::Failed(TlsError::Transport(c))),
            (old(self).inner matches Some(s0) ==> s0.transport.read_fault matches Some(c)
                ==> !s0.session.complete && !s0.write_would_fault(true) ==> r
                == HandshakePoll::Failed(TlsError::Transport(c))),
            (old(self).inner matches Some(s0) ==> !s0.session.complete && !s0.write_would_fault(
                true,
            ) && s0.reads_whole_wire() && s0.session.role_client && !s0.session.hello_received
                && s0.wire_pending().len() == 3 && s0.wire_pending()[0] == KIND_HELLO_SERVER
                && s0.wire_pending()[1] == 1 && !s0.session.spec_cert_trusted(s0.wire_pending()[2])
                ==> r == HandshakePoll::Failed(TlsError::Protocol(ProtocolError::BadCertificate))),
    {
        let taken = self.inner.take();
        match taken {
            None => HandshakePoll::Pending,  // unreachable under the precondition
            Some(mut s) => {
                if !s.session.is_handshaking() {
                    if s.state == TlsState::EarlyData {
                        s.state = TlsState::Stream;
                        s.early_buf = Vec::new();
                        s.early_cursor = 0;
                    }
                    return HandshakePoll::Ready(s);
                }
                match s.progress(true, true) {
                    Progress::Fail(e) => HandshakePoll::Failed(e),
                    _ => {
                        if !s.session.is_handshaking() {
                            if s.state == TlsState::EarlyData {
                                s.state = TlsState::Stream;
                                s.early_buf = Vec::new();
                                s.early_cursor = 0;
                            }
                            HandshakePoll::Ready(s)
                        } else {
                            self.inner = Some(s);
                            HandshakePoll::Pending
                        }
                    },
                }
            },
        }
    }
}

} // verus!
