//! Connector and acceptor factories.
//!
//! A factory holds the long-lived configuration shared by every connection
//! made through it; each `connect` or `accept` builds a fresh session bound
//! to that configuration and hands it to a handshake driver, returning a
//! suspension point that resolves to an established stream or an error.
//! Client names are validated against transport-layer naming rules before
//! any I/O happens. A connector built with no explicit anchors falls back to
//! the embedded default root set.

use vstd::prelude::*;

use crate::dns::{dns_name_is_valid, dns_name_ok};
use crate::error::{ProtocolError, TlsError};
use crate::handshake::{HandshakePoll, MidHandshake};
use crate::session::{spec_encode_record, Session, DEFAULT_ROOT_ID, KIND_HELLO_CLIENT, KIND_HELLO_SERVER};
use crate::state::TlsState;
use crate::stream::TlsStream;
use crate::transport::MemTransport;

verus! {

/// Client-side configuration, immutable once built and shared by every
/// connection made through the same connector.
#[derive(Clone)]
pub struct ClientConfig {
    /// Certificate ids covered by explicitly configured trust anchors.
    pub anchors: Vec<u8>,
    /// Whether the embedded default root set is also trusted.
    pub default_roots: bool,
    /// Whether sessions may accept early data before the handshake is done.
    pub enable_early_data: bool,
}

/// Server-side configuration.
#[derive(Clone, Copy)]
pub struct ServerConfig {
    /// The certificate id this server presents.
    pub cert_id: u8,
}

/// A byte-for-byte copy.
fn clone_bytes(v: &Vec<u8>) -> (r: Vec<u8>)
    ensures
        r@ == v@,
{
    let mut out: Vec<u8> = Vec::new();
    let mut i: usize = 0;
    while i < v.len()
        invariant
            i <= v@.len(),
            out@ == v@.take(i as int),
        decreases v@.len() - i,
    {
        let b: u8 = v[i];
        out.push(b);
        i = i + 1;
        proof {
            assert(out@ =~= v@.take(i as int));
        }
    }
    proof {
        assert(out@ =~= v@);
    }
    out
}

/// What a freshly constructed client session looks like.
pub open spec fn is_fresh_client(
    s: Session,
    anchors: Seq<u8>,
    default_roots: bool,
    early: bool,
) -> bool {
    s.role_client && s.anchors@ == anchors && s.default_roots == default_roots && s.cert_id
        == DEFAULT_ROOT_ID && s.early_accept == early && s.hello_sent && !s.hello_received
        && !s.finish_sent && !s.finish_received && !s.complete && s.recv_buf@.len() == 0
        && s.send_buf@ == spec_encode_record(KIND_HELLO_CLIENT, Seq::<u8>::empty())
        && s.plain_in@.len() == 0 && !s.peer_closed && !s.sent_close && s.error is None
}

/// What a freshly constructed server session looks like.
pub open spec fn is_fresh_server(s: Session, cert_id: u8) -> bool {
    !s.role_client && s.anchors@.len() == 0 && !s.default_roots && s.cert_id == cert_id
        && !s.early_accept && !s.hello_sent && !s.hello_received && !s.finish_sent
        && !s.finish_received && !s.complete && s.recv_buf@.len() == 0 && s.send_buf@.len() == 0
        && s.plain_in@.len() == 0 && !s.peer_closed && !s.sent_close && s.error is None
}

/// A factory for client connections, wrapping a shared client configuration.
#[derive(Clone)]
pub struct TlsConnector {
    /// The shared configuration.
    pub inner: ClientConfig,
    /// Whether this connector asks its sessions to send early data.
    pub early_data: bool,
}

/// A factory for server connections, wrapping a shared server configuration.
#[derive(Clone, Copy)]
pub struct TlsAcceptor {
    /// The shared configuration.
    pub inner: ServerConfig,
}

/// Suspension point returned from `TlsConnector::connect`; resolves once the
/// handshake has finished.
pub struct Connect {
    /// The driver doing the work.
    pub inner: MidHandshake,
}

/// Suspension point returned from `TlsAcceptor::accept`; resolves once the
/// handshake has finished.
pub struct Accept {
    /// The driver doing the work.
    pub inner: MidHandshake,
}

impl From<ClientConfig> for TlsConnector {
    /// Wrap a configuration; early data is off until requested.
    fn from(inner: ClientConfig) -> (r: TlsConnector) {
        TlsConnector { inner, early_data: false }
    }
}

impl vstd::std_specs::convert::FromSpecImpl<ClientConfig> for TlsConnector {
    open spec fn obeys_from_spec() -> bool {
        true
    }

    open spec fn from_spec(inner: ClientConfig) -> TlsConnector {
        TlsConnector { inner, early_data: false }
    }
}

impl From<ServerConfig> for TlsAcceptor {
    /// Wrap a configuration.
    fn from(inner: ServerConfig) -> (r: TlsAcceptor) {
        TlsAcceptor { inner }
    }
}

impl vstd::std_specs::convert::FromSpecImpl<ServerConfig> for TlsAcceptor {
    open spec fn obeys_from_spec() -> bool {
        true
    }

    open spec fn from_spec(inner: ServerConfig) -> TlsAcceptor {
        TlsAcceptor { inner }
    }
}

impl Default for TlsConnector {
    /// A connector with no explicit anchors: it trusts the embedded default
    /// root set, with early data off.
    fn default() -> (r: TlsConnector)
        ensures
            r.inner.anchors@.len() == 0,
            r.inner.default_roots,
            !r.inner.enable_early_data,
            !r.early_data,
    {
        TlsConnector {
            inner: ClientConfig {
                anchors: Vec::new(),
                default_roots: true,
                enable_early_data: false,
            },
            early_data: false,
        }
    }
}

impl TlsConnector {
    /// Whether connections made now would start in the early-data state.
    pub open spec fn spec_early(self) -> bool {
        self.early_data && self.inner.enable_early_data
    }

    /// Same as the default: trust the embedded roots, early data off.
    pub fn new() -> (r: TlsConnector)
        ensures
            r.inner.anchors@.len() == 0,
            r.inner.default_roots,
            !r.inner.enable_early_data,
            !r.early_data,
    {
        TlsConnector::default()
    }

    /// Ask sessions made by this connector to offer early data; it is only
    /// actually used when the configuration also enables it.
    pub fn early_data(self, flag: bool) -> (r: TlsConnector)
        ensures
            r == (TlsConnector { early_data: flag, ..self }),
    {
        TlsConnector { early_data: flag, ..self }
    }

    /// Validate the domain, build a fresh session bound to the shared
    /// configuration, and return the handshake suspension point. Fails with
    /// `InvalidDomain`, before any I/O, exactly when the domain is not a
    /// valid DNS name.
    pub fn connect(&self, domain: &str, transport: MemTransport) -> (r: Result<Connect, TlsError>)
        requires
            transport.wf(),
        ensures
            r is Ok <==> dns_name_ok(domain@),
            (r matches Err(e) ==> e == TlsError::InvalidDomain),
            (r matches Ok(c) ==> c.wf() && c.is_pending() && (c.inner.inner matches Some(s)
                && s.wf() && s.transport == transport && s.state == (if self.spec_early() {
                TlsState::EarlyData
            } else {
                TlsState::Stream
            }) && is_fresh_client(
                s.session,
                self.inner.anchors@,
                self.inner.default_roots,
                self.spec_early(),
            ))),
    {
        if !dns_name_is_valid(domain) {
            return Err(TlsError::InvalidDomain);
        }
        let anchors = clone_bytes(&self.inner.anchors);
        let early = self.early_data && self.inner.enable_early_data;
        let session = Session::new_client(anchors, self.inner.default_roots, early);
        proof {
            assert(early == self.spec_early());
            assert(is_fresh_client(
                session,
                self.inner.anchors@,
                self.inner.default_roots,
                self.spec_early(),
            ));
        }
        let state = if early {
            TlsState::EarlyData
        } else {
            TlsState::Stream
        };
        let stream = TlsStream::new(session, transport, state);
        Ok(Connect { inner: MidHandshake::new(stream) })
    }

    /// Like `connect`, but hands the freshly built session to `f` for
    /// customization before the handshake begins; the session `f` returns is
    /// the one driven.
    pub fn connect_with<F: FnOnce(Session) -> Session>(
        &self,
        domain: &str,
        transport: MemTransport,
        f: F,
    ) -> (r: Result<Connect, TlsError>)
        requires
            transport.wf(),
            forall|s0: Session|
                is_fresh_client(s0, self.inner.anchors@, self.inner.default_roots, self.spec_early())
                    ==> call_requires(f, (s0,)),
        ensures
            r is Ok <==> dns_name_ok(domain@),
            (r matches Err(e) ==> e == TlsError::InvalidDomain),
            (r matches Ok(c) ==> c.wf() && c.is_pending() && (c.inner.inner matches Some(s)
                && s.wf() && s.transport == transport && s.state == (if self.spec_early() {
                TlsState::EarlyData
            } else {
                TlsState::Stream
            }) && (exists|s0: Session|
                is_fresh_client(
                    s0,
                    self.inner.anchors@,
                    self.inner.default_roots,
                    self.spec_early(),
                ) && call_ensures(f, (s0,), s.session)))),
    {
        if !dns_name_is_valid(domain) {
            return Err(TlsError::InvalidDomain);
        }
        let anchors = clone_bytes(&self.inner.anchors);
        let early = self.early_data && self.inner.enable_early_data;
        let session = Session::new_client(anchors, self.inner.default_roots, early);
        proof {
            assert(early == self.spec_early());
            assert(is_fresh_client(
                session,
                self.inner.anchors@,
                self.inner.default_roots,
                self.spec_early(),
            ));
        }
        let ghost s0 = session;
        let session = f(session);
        proof {
            assert(call_ensures(f, (s0,), session));
        }
        let state = if early {
            TlsState::EarlyData
        } else {
            TlsState::Stream
        };
        let stream = TlsStream::new(session, transport, state);
        Ok(Connect { inner: MidHandshake::new(stream) })
    }
}

impl TlsAcceptor {
    /// Build a fresh server session bound to the shared configuration and
    /// return the handshake suspension point.
    pub fn accept(&self, transport: MemTransport) -> (r: Accept)
        requires
            transport.wf(),
        ensures
            r.wf(),
            r.is_pending(),
            (r.inner.inner matches Some(s) && s.wf() && s.transport == transport && s.state
                == TlsState::Stream && is_fresh_server(s.session, self.inner.cert_id)),
    {
        let session = Session::new_server(self.inner.cert_id);
        proof {
            assert(is_fresh_server(session, self.inner.cert_id));
        }
        let stream = TlsStream::new(session, transport, TlsState::Stream);
        Accept { inner: MidHandshake::new(stream) }
    }

    /// Like `accept`, but hands the freshly built session to `f` for
    /// customization before the handshake begins.
    pub fn accept_with<F: FnOnce(Session) -> Session>(
        &self,
        transport: MemTransport,
        f: F,
    ) -> (r: Accept)
        requires
            transport.wf(),
            forall|s0: Session| is_fresh_server(s0, self.inner.cert_id) ==> call_requires(f, (s0,)),
        ensures
            r.wf(),
            r.is_pending(),
            (r.inner.inner matches Some(s) && s.wf() && s.transport == transport && s.state
                == TlsState::Stream && (exists|s0: Session|
                is_fresh_server(s0, self.inner.cert_id) && call_ensures(f, (s0,), s.session))),
    {
        let session = Session::new_server(self.inner.cert_id);
        proof {
            assert(is_fresh_server(session, self.inner.cert_id));
        }
        let ghost s0 = session;
        let session = f(session);
        proof {
            assert(call_ensures(f, (s0,), session));
        }
        let stream = TlsStream::new(session, transport, TlsState::Stream);
        Accept { inner: MidHandshake::new(stream) }
    }
}

impl Connect {
    /// Structural validity.
    pub open spec fn wf(self) -> bool {
        self.inner.wf()
    }

    /// Whether the suspension point has not resolved yet.
    pub open spec fn is_pending(self) -> bool {
        self.inner.is_pending()
    }

    /// One bounded step of the handshake; see `MidHandshake::poll`.
    pub fn poll(&mut self) -> (r: HandshakePoll)
        requires
            old(self).wf(),
            old(self).is_pending(),
        ensures
            final(self).wf(),
            (r matches HandshakePoll::Ready(s) ==> s.wf() && s.session.complete && !(s.state
                is EarlyData) && !final(self).is_pending()),
            r is Pending ==> final(self).is_pending(),
            (r matches HandshakePoll::Failed(e) ==> !final(self).is_pending() && (e is Transport
                || e is Protocol)),
            (old(self).inner.inner matches Some(s0) ==> final(self).inner.inner matches Some(s1)
                ==> s0.cipher_out().is_prefix_of(s1.cipher_out())
                && s0.session.plain_in@.is_prefix_of(s1.session.plain_in@)
                && s1.state == s0.state && s0.bounded_tries(s1)),
            (old(self).inner.inner matches Some(s0) ==> r matches HandshakePoll::Ready(s1)
                ==> s0.cipher_out().is_prefix_of(s1.cipher_out()) && s0.bounded_tries(s1)
                && s1.state == (if s0.state is EarlyData { TlsState::Stream } else { s0.state })),
            (old(self).inner.inner matches Some(s0) ==> s0.session.complete ==> r is Ready),
            (final(self).inner.inner matches Some(s1) ==> !s1.session.complete),
            (old(self).inner.inner matches Some(s0) ==> final(self).inner.inner matches Some(s1)
                ==> (s0.can_write_now() ==> s0.wrote_exact(s1)) && (!s0.write_would_fault(true)
                && s0.can_read_now() ==> s0.read_exact(s1))),
            (old(self).inner.inner matches Some(s0) ==> r matches HandshakePoll::Ready(s1)
                ==> !s0.session.complete ==> (s0.can_write_now() ==> s0.wrote_exact(s1)) && (
                !s0.write_would_fault(true) && s0.can_read_now() ==> s0.read_exact(s1))),
            (old(self).inner.inner matches Some(s0) ==> s0.transport.write_fault matches Some(c)
                ==> !s0.session.complete && s0.session.send_buf@.len() >= 1 ==> r
                == HandshakePoll::Failed(TlsError::Transport(c))),
            (old(self).inner.inner matches Some(s0) ==> s0.transport.read_fault matches Some(c)
                ==> !s0.session.complete && !s0.write_would_fault(true) ==> r
                == HandshakePoll::Failed(TlsError::Transport(c))),
            (old(self).inner.inner matches Some(s0) ==> !s0.session.complete
                && !s0.write_would_fault(true) && s0.reads_whole_wire()
                && s0.session.role_client && !s0.session.hello_received
                && s0.wire_pending().len() == 3 && s0.wire_pending()[0] == KIND_HELLO_SERVER
                && s0.wire_pending()[1] == 1 && !s0.session.spec_cert_trusted(s0.wire_pending()[2])
                ==> r == HandshakePoll::Failed(TlsError::Protocol(ProtocolError::BadCertificate))),
    {
        self.inner.poll()
    }
}

impl Accept {
    /// Structural validity.
    pub open spec fn wf(self) -> bool {
        self.inner.wf()
    }

    /// Whether the suspension point has not resolved yet.
    pub open spec fn is_pending(self) -> bool {
        self.inner.is_pending()
    }

    /// One bounded step of the handshake; see `MidHandshake::poll`.
    pub fn poll(&mut self) -> (r: HandshakePoll)
        requires
            old(self).wf(),
            old(self).is_pending(),
        ensures
            final(self).wf(),
            (r matches HandshakePoll::Ready(s) ==> s.wf() && s.session.complete && !(s.state
                is EarlyData) && !final(self).is_pending()),
            r is Pending ==> final(self).is_pending(),
            (r matches HandshakePoll::Failed(e) ==> !final(self).is_pending() && (e is Transport
                || e is Protocol)),
            (old(self).inner.inner matches Some(s0) ==> final(self).inner.inner matches Some(s1)
                ==> s0.cipher_out().is_prefix_of(s1.cipher_out())
                && s0.session.plain_in@.is_prefix_of(s1.session.plain_in@)
                && s1.state == s0.state && s0.bounded_tries(s1)),
            (old(self).inner.inner matches Some(s0) ==> r matches HandshakePoll::Ready(s1)
                ==> s0.cipher_out().is_prefix_of(s1.cipher_out()) && s0.bounded_tries(s1)
                && s1.state == (if s0.state is EarlyData { TlsState::Stream } else { s0.state })),
            (old(self).inner.inner matches Some(s0) ==> s0.session.complete ==> r is Ready),
            (final(self).inner.inner matches Some(s1) ==> !s1.session.complete),
            (old(self).inner.inner matches Some(s0) ==> final(self).inner.inner matches Some(s1)
                ==> (s0.can_write_now() ==> s0.wrote_exact(s1)) && (!s0.write_would_fault(true)
                && s0.can_read_now() ==> s0.read_exact(s1))),
            (old(self).inner.inner matches Some(s0) ==> r matches HandshakePoll::Ready(s1)
                ==> !s0.session.complete ==> (s0.can_write_now() ==> s0.wrote_exact(s1)) && (
                !s0.write_would_fault(true) && s0.can_read_now() ==> s0.read_exact(s1))),
            (old(self).inner.inner matches Some(s0) ==> s0.transport.write_fault matches Some(c)
                ==> !s0.session.complete && s0.session.send_buf@.len() >= 1 ==> r
                == HandshakePoll::Failed(TlsError::Transport(c))),
            (old(self).inner.inner matches Some(s0) ==> s0.transport.read_fault matches Some(c)
                ==> !s0.session.complete && !s0.write_would_fault(true) ==> r
                == HandshakePoll::Failed(TlsError::Transport(c))),
            (old(self).inner.inner matches Some(s0) ==> !s0.session.complete
                && !s0.write_would_fault(true) && s0.reads_whole_wire()
                && s0.session.role_client && !s0.session.hello_received
                && s0.wire_pending().len() == 3 && s0.wire_pending()[0] == KIND_HELLO_SERVER
                && s0.wire_pending()[1] == 1 && !s0.session.spec_cert_trusted(s0.wire_pending()[2])
                ==> r == HandshakePoll::Failed(TlsError::Protocol(ProtocolError::BadCertificate))),
    {
        self.inner.poll()
    }
}

} // verus!
