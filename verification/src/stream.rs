//! The established TLS stream and its multiplexing adapter.
//!
//! The adapter couples one session engine to one transport endpoint and makes
//! one bounded unit of progress per invocation: at most one transport read
//! attempt and at most one transport write attempt, never spinning, so a
//! cooperative scheduler always gets control back. The stream exposes read,
//! write, flush and shutdown on top of it, tracking the read and write
//! half-close states independently and poisoning a direction once it fails.

use vstd::prelude::*;

use crate::error::{ProtocolError, TlsError};
use crate::session::{spec_encode_record, Session, KIND_CLOSE, KIND_DATA, KIND_HELLO_SERVER};
use crate::state::TlsState;
use crate::transport::{IoEvent, MemTransport, WriteEvent};

verus! {

/// Most ciphertext bytes moved per transport attempt.
pub const IO_CHUNK: usize = 4096;

/// Most plaintext bytes buffered while early data is pending; beyond this the
/// stream reports would-block until the handshake completes.
pub const EARLY_DATA_CAP: usize = 16384;

/// The outcome of one bounded progress step.
#[derive(Debug, Copy, Clone, PartialEq, Eq, Structural)]
pub enum Progress {
    /// Bytes moved in at least one direction.
    Made,
    /// Both directions would block; retry when the transport is ready.
    Pending,
    /// A transport or protocol failure; the failing direction is poisoned.
    Fail(TlsError),
}

/// The outcome of a read.
#[derive(Debug)]
pub enum ReadResult {
    /// Plaintext bytes; an empty vector means end-of-stream.
    Data(Vec<u8>),
    /// No plaintext available yet; retry when the transport is ready.
    WouldBlock,
    /// The read direction failed and stays failed.
    Fail(TlsError),
}

/// The outcome of a write.
#[derive(Debug, Copy, Clone, PartialEq, Eq, Structural)]
pub enum WriteResult {
    /// This many leading bytes were accepted for encryption.
    Accepted(usize),
    /// Nothing can be accepted right now; retry later.
    WouldBlock,
    /// The write direction failed and stays failed.
    Fail(TlsError),
}

/// The outcome of a flush or shutdown.
#[derive(Debug, Copy, Clone, PartialEq, Eq, Structural)]
pub enum FlushResult {
    /// All pending ciphertext has been handed to the transport.
    Done,
    /// The transport would block; retry later.
    WouldBlock,
    /// The write direction failed and stays failed.
    Fail(TlsError),
}

/// A TLS stream: one session engine, one transport, and the half-close and
/// poisoning bookkeeping around them.
pub struct TlsStream {
    /// The session engine this stream drives.
    pub session: Session,
    /// The transport this stream owns.
    pub transport: MemTransport,
    /// Independent read/write half-close state.
    pub state: TlsState,
    /// Plaintext buffered while early data is pending.
    pub early_buf: Vec<u8>,
    /// How many bytes of `early_buf` have been offered to the session.
    pub early_cursor: usize,
    /// A failure that poisoned the read direction.
    pub read_fault: Option<TlsError>,
    /// A failure that poisoned the write direction.
    pub write_fault: Option<TlsError>,
    /// Whether the transport reported end-of-stream.
    pub transport_eof: bool,
}

impl TlsStream {
    /// Structural validity.
    pub open spec fn wf(self) -> bool {
        self.transport.wf() && self.early_cursor <= self.early_buf@.len()
    }

    /// The whole ciphertext stream this endpoint has produced: what has been
    /// handed to the transport followed by what is still queued. Operations
    /// may extend it but never drop, duplicate or reorder a byte of it.
    pub open spec fn cipher_out(self) -> Seq<u8> {
        self.transport.tx@ + self.session.send_buf@
    }

    /// Nothing observable changed: the session, the half-close state, the
    /// buffers and the wire are as they were.
    pub open spec fn quiet(self, post: Self) -> bool {
        post.session == self.session && post.state == self.state && post.early_buf
            == self.early_buf && post.early_cursor == self.early_cursor && post.read_fault
            == self.read_fault && post.write_fault == self.write_fault && post.transport_eof
            == self.transport_eof && post.transport.tx == self.transport.tx && post.transport.rx_pos
            == self.transport.rx_pos
    }

    /// The fairness bound: at most one read and one write attempt were made.
    pub open spec fn bounded_tries(self, post: Self) -> bool {
        post.transport.read_tries@ <= self.transport.read_tries@ + 1 && post.transport.write_tries@
            <= self.transport.write_tries@ + 1
    }

    /// Nothing on the read side changed: no plaintext, no consumed wire
    /// bytes, no handshake or close progress, no read poisoning.
    pub open spec fn read_side_unchanged(self, post: Self) -> bool {
        post.session.plain_in == self.session.plain_in && post.read_fault == self.read_fault
            && post.transport_eof == self.transport_eof && post.transport.rx_pos
            == self.transport.rx_pos && post.session.recv_buf == self.session.recv_buf
            && post.session.complete == self.session.complete && post.session.error
            == self.session.error && post.session.peer_closed == self.session.peer_closed
    }

    /// The failure `e` was recorded against one of the two directions.
    pub open spec fn fault_recorded(self, e: TlsError) -> bool {
        (e is Transport || e is Protocol) && (self.read_fault == Some(e) || self.write_fault
            == Some(e))
    }

    /// Ciphertext is queued and the transport will accept bytes right now.
    pub open spec fn can_write_now(self) -> bool {
        self.session.send_buf@.len() >= 1 && self.transport.write_fault is None
            && !self.transport.write_blocked
    }

    /// How many queued ciphertext bytes one step hands over when the
    /// transport accepts: bounded by the chunk size, the transport's own
    /// per-attempt cap, and what is queued.
    pub open spec fn write_quota(self) -> int {
        vstd::math::min(
            IO_CHUNK as int,
            vstd::math::min(self.transport.max_chunk as int, self.session.send_buf@.len() as int),
        )
    }

    /// Exactly the write quota of queued ciphertext reached the wire, and
    /// the remainder stayed queued.
    pub open spec fn wrote_exact(self, post: Self) -> bool {
        post.transport.tx@ == self.transport.tx@ + self.session.send_buf@.take(self.write_quota())
            && self.session.send_buf@.skip(self.write_quota()).is_prefix_of(post.session.send_buf@)
    }

    /// The transport has bytes to hand over and will do so right now.
    pub open spec fn can_read_now(self) -> bool {
        self.transport.read_fault is None && !self.transport.read_blocked
            && self.transport.spec_avail() >= 1
    }

    /// How many wire bytes one step consumes when some are available.
    pub open spec fn read_quota(self) -> int {
        vstd::math::min(
            IO_CHUNK as int,
            vstd::math::min(self.transport.max_chunk as int, self.transport.spec_avail()),
        )
    }

    /// Exactly the read quota of available wire bytes was consumed.
    pub open spec fn read_exact(self, post: Self) -> bool {
        post.transport.rx_pos == self.transport.rx_pos + self.read_quota()
    }

    /// The write attempt of one step would fail outright.
    pub open spec fn write_would_fault(self, do_write: bool) -> bool {
        do_write && self.session.send_buf@.len() >= 1 && self.transport.write_fault is Some
    }

    /// The bytes waiting unconsumed on the wire.
    pub open spec fn wire_pending(self) -> Seq<u8> {
        self.transport.rx@.skip(self.transport.rx_pos as int)
    }

    /// One read attempt takes in everything waiting on the wire, and the
    /// engine's own buffer holds nothing stale: what arrives next is judged
    /// on its own.
    pub open spec fn reads_whole_wire(self) -> bool {
        self.can_read_now() && self.transport.spec_avail() <= vstd::math::min(
            IO_CHUNK as int,
            self.transport.max_chunk as int,
        ) && self.session.recv_buf@.len() == 0 && self.session.error is None
    }

    /// Wrap an engine and a transport into a stream in the given state.
    pub fn new(session: Session, transport: MemTransport, state: TlsState) -> (r: TlsStream)
        requires
            transport.wf(),
        ensures
            r.wf(),
            r.session == session,
            r.transport == transport,
            r.state == state,
            r.early_buf@.len() == 0,
            r.early_cursor == 0,
            r.read_fault is None,
            r.write_fault is None,
            !r.transport_eof,
    {
        TlsStream {
            session,
            transport,
            state,
            early_buf: Vec::new(),
            early_cursor: 0,
            read_fault: None,
            write_fault: None,
            transport_eof: false,
        }
    }

    /// Take the stream apart again.
    pub fn into_parts(self) -> (r: (Session, MemTransport, TlsState))
        ensures
            r.0 == self.session,
            r.1 == self.transport,
            r.2 == self.state,
    {
        (self.session, self.transport, self.state)
    }

    /// One bounded unit of progress: hand at most one chunk of pending
    /// ciphertext to the transport, accept at most one chunk from it, and
    /// surface any failure. A would-block outcome changes nothing observable,
    /// so the step is safe to repeat once the transport is ready.
    pub fn progress(&mut self, do_read: bool, do_write: bool) -> (r: Progress)
        requires
            old(self).wf(),
        ensures
            final(self).wf(),
            old(self).bounded_tries(*final(self)),
            !do_read ==> final(self).transport.read_tries@ == old(self).transport.read_tries@,
            !do_write ==> final(self).transport.write_tries@ == old(self).transport.write_tries@,
            old(self).cipher_out().is_prefix_of(final(self).cipher_out()),
            !do_read ==> final(self).cipher_out() == old(self).cipher_out(),
            old(self).session.plain_in@.is_prefix_of(final(self).session.plain_in@),
            final(self).state == old(self).state,
            final(self).early_buf == old(self).early_buf,
            final(self).early_cursor == old(self).early_cursor,
            r is Pending ==> old(self).quiet(*final(self)),
            !(r is Fail) ==> final(self).read_fault == old(self).read_fault && final(
                self).write_fault == old(self).write_fault,
            (r matches Progress::Fail(e) ==> final(self).fault_recorded(e)),
            (r matches Progress::Fail(e) ==> !do_read ==> e is Transport && final(self).write_fault
                == Some(e) && final(self).session.send_buf == old(self).session.send_buf
                && final(self).transport.tx == old(self).transport.tx),
            final(self).session.sent_close == old(self).session.sent_close,
            !do_read ==> old(self).read_side_unchanged(*final(self)),
            do_write && old(self).can_write_now() ==> old(self).wrote_exact(*final(self)),
            !do_read && do_write && old(self).can_write_now() ==> final(self).session.send_buf@
                == old(self).session.send_buf@.skip(old(self).write_quota()),
            (old(self).transport.write_fault matches Some(c) ==> do_write && old(
                self).session.send_buf@.len() >= 1 ==> r == Progress::Fail(TlsError::Transport(c))),
            (old(self).transport.read_fault matches Some(c) ==> do_read && !old(
                self).write_would_fault(do_write) ==> r == Progress::Fail(TlsError::Transport(c))),
            do_read && !old(self).write_would_fault(do_write) && old(self).can_read_now() ==> old(
                self).read_exact(*final(self)),
            (final(self).session.error matches Some(pe) ==> do_read && !old(
                self).write_would_fault(do_write) && old(self).can_read_now() && old(
                self).transport.read_fault is None ==> r == Progress::Fail(TlsError::Protocol(pe))),
            r is Pending ==> (do_write ==> old(self).session.send_buf@.len() == 0 || old(
                self).transport.write_blocked) && (do_read ==> old(self).transport.read_fault
                is None && (old(self).transport.read_blocked || old(self).transport.spec_avail()
                == 0)),
            do_read && !old(self).write_would_fault(do_write) && old(self).reads_whole_wire()
                && old(self).session.role_client && !old(self).session.hello_received && old(
                self).wire_pending().len() == 3 && old(self).wire_pending()[0] == KIND_HELLO_SERVER
                && old(self).wire_pending()[1] == 1 && !old(self).session.spec_cert_trusted(
                old(self).wire_pending()[2],
            ) ==> r == Progress::Fail(TlsError::Protocol(ProtocolError::BadCertificate)),
    {
        let mut made = false;
        if do_write && self.session.pending_ciphertext() > 0 {
            let chunk = self.session.produce_ciphertext(IO_CHUNK);
            match self.transport.try_write(chunk.as_slice()) {
                WriteEvent::Accepted(n) => {
                    proof {
                        assert(chunk@.is_prefix_of(self.session.send_buf@));
                        assert(n as int == old(self).write_quota());
                        assert(chunk@.take(n as int) =~= old(self).session.send_buf@.take(
                            n as int,
                        ));
                    }
                    self.session.ciphertext_taken(n);
                    proof {
                        assert(self.transport.tx@ + self.session.send_buf@ =~= old(self).transport.tx@ + old(self).session.send_buf@);
                        assert(self.session.send_buf@.is_prefix_of(self.session.send_buf@)) by {
                            assert(self.session.send_buf@.subrange(
                                0,
                                self.session.send_buf@.len() as int,
                            ) =~= self.session.send_buf@);
                        }
                    }
                    made = true;
                },
                WriteEvent::WouldBlock => {},
                WriteEvent::Fault(c) => {
                    self.write_fault = Some(TlsError::Transport(c));
                    return Progress::Fail(TlsError::Transport(c));
                },
            }
        }
        let ghost send_mid = self.session.send_buf@;
        if do_read {
            match self.transport.try_read(IO_CHUNK) {
                IoEvent::Data(v) => {
                    self.session.feed_ciphertext(v.as_slice());
                    self.session.process();
                    proof {
                        assert(send_mid.is_prefix_of(self.session.send_buf@));
                        if do_write && old(self).can_write_now() {
                            assert(old(self).session.send_buf@.skip(old(self).write_quota())
                                == send_mid);
                        }
                        if old(self).reads_whole_wire() && old(self).session.role_client && !old(
                            self).session.hello_received && old(self).wire_pending().len() == 3
                            && old(self).wire_pending()[0] == KIND_HELLO_SERVER && old(
                            self).wire_pending()[1] == 1 && !old(self).session.spec_cert_trusted(
                            old(self).wire_pending()[2],
                        ) {
                            assert(v@ =~= old(self).wire_pending());
                        }
                    }
                    proof {
                        assert(old(self).cipher_out().is_prefix_of(self.cipher_out())) by {
                            assert(self.cipher_out().take(old(self).cipher_out().len() as int)
                                =~= old(self).cipher_out());
                        }
                    }
                    match self.session.last_error() {
                        Some(pe) => {
                            let e = TlsError::Protocol(pe);
                            self.read_fault = Some(e);
                            return Progress::Fail(e);
                        },
                        None => {},
                    }
                    made = true;
                },
                IoEvent::WouldBlock => {},
                IoEvent::Closed => {
                    if !self.transport_eof {
                        self.transport_eof = true;
                        made = true;
                    }
                },
                IoEvent::Fault(c) => {
                    let e = TlsError::Transport(c);
                    self.read_fault = Some(e);
                    return Progress::Fail(e);
                },
            }
        }
        if made {
            Progress::Made
        } else {
            Progress::Pending
        }
    }

    /// Read plaintext into a fresh buffer of at most `max` bytes.
    ///
    /// After the read direction is shut this returns end-of-stream at once,
    /// with no transport interaction at all. A poisoned read direction fails
    /// with the recorded error every time. Otherwise plaintext already
    /// decrypted is delivered first, in arrival order; only when none is
    /// buffered is one bounded progress step made. An empty result means the
    /// peer closed, and shuts the read direction.
    pub fn read(&mut self, max: usize) -> (r: ReadResult)
        requires
            old(self).wf(),
            max >= 1,
        ensures
            final(self).wf(),
            old(self).bounded_tries(*final(self)),
            (!old(self).state.spec_readable() ==> (r matches ReadResult::Data(v) && v@.len() == 0)
                && *final(self) == *old(self)),
            (old(self).read_fault matches Some(e) ==> old(self).state.spec_readable() ==> r
                == ReadResult::Fail(e) && *final(self) == *old(self)),
            old(self).state.spec_readable() && old(self).read_fault is None && old(self).session.plain_in@.len() > 0 ==> {
                let m = vstd::math::min(max as int, old(self).session.plain_in@.len() as int);
                &&& (r matches ReadResult::Data(v) && v@ == old(self).session.plain_in@.take(m))
                &&& final(self).session.plain_in@ == old(self).session.plain_in@.skip(m)
                &&& final(self).transport == old(self).transport
                &&& final(self).state == old(self).state
                &&& *final(self) == (TlsStream { session: final(self).session, ..*old(self) })
                &&& final(self).session == (Session {
                    plain_in: final(self).session.plain_in,
                    ..old(self).session
                })
            },
            (r matches ReadResult::Data(v) ==> old(self).session.plain_in@.is_prefix_of(
                v@ + final(self).session.plain_in@,
            )),
            (old(self).state.spec_readable() && (r matches ReadResult::Data(v) && v@.len() == 0)
                ==> (final(self).session.peer_closed || final(self).transport_eof)
                && final(self).state == old(self).state.spec_shutdown_read()),
            final(self).state == old(self).state || final(self).state == old(self).state.spec_shutdown_read(),
            old(self).cipher_out().is_prefix_of(final(self).cipher_out()),
            old(self).state.spec_readable() && old(self).read_fault is None && old(
                self).session.plain_in@.len() == 0 && old(self).can_read_now() && !old(
                self).write_would_fault(true) ==> old(self).read_exact(*final(self)),
            r is WouldBlock ==> final(self).session.plain_in@.len() == 0 && !final(
                self).session.peer_closed && !final(self).transport_eof && final(self).read_fault
                is None,
    {
        if !self.state.readable() {
            return ReadResult::Data(Vec::new());
        }
        if let Some(e) = self.read_fault {
            return ReadResult::Fail(e);
        }
        if self.session.pending_plaintext() > 0 {
            let v = self.session.read_plaintext(max);
            proof {
                assert(old(self).session.plain_in@ =~= v@ + self.session.plain_in@);
            }
            return ReadResult::Data(v);
        }
        match self.progress(true, true) {
            Progress::Fail(e) => {
                return ReadResult::Fail(e);
            },
            _ => {},
        }
        if self.session.pending_plaintext() > 0 {
            let ghost before = self.session.plain_in@;
            let v = self.session.read_plaintext(max);
            proof {
                assert(before =~= v@ + self.session.plain_in@);
            }
            return ReadResult::Data(v);
        }
        if self.session.peer_has_closed() || self.transport_eof {
            self.state.shutdown_read();
            return ReadResult::Data(Vec::new());
        }
        ReadResult::WouldBlock
    }

    /// Submit plaintext for encryption and eventual transmission.
    ///
    /// After the write direction is shut this fails with `WriteClosed` and
    /// touches nothing — in particular not the transport. A poisoned write
    /// direction fails with the recorded error every time. Otherwise a
    /// leading chunk is framed and queued, exactly once and in order, and one
    /// bounded attempt is made to hand pending ciphertext to the transport;
    /// bytes the transport does not take yet stay queued, so nothing is lost.
    /// While early data is pending, accepted bytes are also retained in the
    /// early-data buffer, which is capped at `EARLY_DATA_CAP`.
    pub fn write(&mut self, data: &[u8]) -> (r: WriteResult)
        requires
            old(self).wf(),
        ensures
            final(self).wf(),
            old(self).bounded_tries(*final(self)),
            final(self).transport.read_tries@ == old(self).transport.read_tries@,
            old(self).read_side_unchanged(*final(self)),
            final(self).state == old(self).state,
            (!old(self).state.spec_writeable() ==> r == WriteResult::Fail(TlsError::WriteClosed)
                && *final(self) == *old(self)),
            (old(self).write_fault matches Some(e) ==> old(self).state.spec_writeable() ==> r
                == WriteResult::Fail(e) && *final(self) == *old(self)),
            (old(self).state.spec_writeable() && old(self).write_fault is None && data@.len() == 0
                ==> r == WriteResult::Accepted(0) && *final(self) == *old(self)),
            old(self).state.spec_writeable() && !(old(self).state is EarlyData) && old(self).write_fault is None && data@.len() >= 1 && old(self).session.spec_may_write() ==> {
                let m = vstd::math::min(data@.len() as int, 255);
                &&& final(self).cipher_out() == old(self).cipher_out() + spec_encode_record(
                    KIND_DATA,
                    data@.take(m),
                )
                &&& ((r matches WriteResult::Accepted(n) && n == m) || (r
                    matches WriteResult::Fail(e) && e is Transport && final(self).write_fault
                    == Some(e)))
            },
            old(self).state is EarlyData && old(self).write_fault is None && data@.len() >= 1
                && old(self).session.spec_may_write() && old(self).early_buf@.len()
                < EARLY_DATA_CAP ==> {
                let m = vstd::math::min(
                    vstd::math::min(data@.len() as int, 255),
                    EARLY_DATA_CAP - old(self).early_buf@.len(),
                );
                &&& final(self).cipher_out() == old(self).cipher_out() + spec_encode_record(
                    KIND_DATA,
                    data@.take(m),
                )
                &&& final(self).early_buf@ == old(self).early_buf@ + data@.take(m)
                &&& final(self).early_cursor == final(self).early_buf@.len()
                &&& ((r matches WriteResult::Accepted(n) && n == m) || (r
                    matches WriteResult::Fail(e) && e is Transport && final(self).write_fault
                    == Some(e)))
            },
            (old(self).state is EarlyData && old(self).write_fault is None
                && old(self).early_buf@.len() >= EARLY_DATA_CAP && data@.len() >= 1
                ==> r == WriteResult::WouldBlock && *final(self) == *old(self)),
            old(self).cipher_out().is_prefix_of(final(self).cipher_out()),
    {
        if !self.state.writeable() {
            return WriteResult::Fail(TlsError::WriteClosed);
        }
        if let Some(e) = self.write_fault {
            return WriteResult::Fail(e);
        }
        if data.len() == 0 {
            return WriteResult::Accepted(0);
        }
        if self.state == TlsState::EarlyData {
            if self.early_buf.len() >= EARLY_DATA_CAP {
                return WriteResult::WouldBlock;
            }
            let avail: usize = EARLY_DATA_CAP - self.early_buf.len();
            let mut limit: usize = data.len();
            if avail < limit {
                limit = avail;
            }
            if limit > 255 {
                limit = 255;
            }
            let mut chunk: Vec<u8> = Vec::new();
            let mut i: usize = 0;
            while i < limit
                invariant
                    i <= limit,
                    limit <= data@.len(),
                    chunk@ == data@.take(i as int),
                    *self == *old(self),
                decreases limit - i,
            {
                let b: u8 = data[i];
                chunk.push(b);
                i = i + 1;
                proof {
                    assert(chunk@ =~= data@.take(i as int));
                }
            }
            let n = self.session.write_plaintext(chunk.as_slice());
            if n == 0 {
                return WriteResult::WouldBlock;
            }
            proof {
                assert(chunk@.take(n as int) =~= data@.take(n as int));
            }
            self.early_buf.append(&mut chunk);
            self.early_cursor = self.early_buf.len();
            match self.progress(false, true) {
                Progress::Fail(e) => {
                    return WriteResult::Fail(e);
                },
                _ => {},
            }
            return WriteResult::Accepted(n);
        }
        let n = self.session.write_plaintext(data);
        if n == 0 {
            return WriteResult::WouldBlock;
        }
        match self.progress(false, true) {
            Progress::Fail(e) => {
                return WriteResult::Fail(e);
            },
            _ => {},
        }
        WriteResult::Accepted(n)
    }

    /// Drive pending ciphertext toward the transport, one bounded attempt
    /// per call; `Done` exactly when nothing is left queued. No ciphertext
    /// is created, dropped or reordered by flushing.
    pub fn flush(&mut self) -> (r: FlushResult)
        requires
            old(self).wf(),
        ensures
            final(self).wf(),
            old(self).bounded_tries(*final(self)),
            final(self).transport.read_tries@ == old(self).transport.read_tries@,
            old(self).read_side_unchanged(*final(self)),
            final(self).cipher_out() == old(self).cipher_out(),
            final(self).state == old(self).state,
            final(self).early_buf == old(self).early_buf,
            final(self).early_cursor == old(self).early_cursor,
            final(self).session.sent_close == old(self).session.sent_close,
            (old(self).write_fault matches Some(e) ==> r == FlushResult::Fail(e) && *final(self)
                == *old(self)),
            old(self).write_fault is None ==> ((r == FlushResult::Done) <==> final(self).session.send_buf@.len() == 0),
            (r matches FlushResult::Fail(e) ==> final(self).write_fault == Some(e)),
            old(self).write_fault is None && old(self).can_write_now() ==> old(self).wrote_exact(
                *final(self),
            ) && final(self).session.send_buf@ == old(self).session.send_buf@.skip(
                old(self).write_quota(),
            ),
            old(self).write_fault is None && old(self).transport.write_fault is None && !old(
                self).transport.write_blocked && old(self).session.send_buf@.len()
                <= vstd::math::min(IO_CHUNK as int, old(self).transport.max_chunk as int) ==> r
                == FlushResult::Done,
            old(self).write_fault is None ==> (r == FlushResult::WouldBlock ==> old(
                self).transport.write_blocked || old(self).session.send_buf@.len()
                > vstd::math::min(IO_CHUNK as int, old(self).transport.max_chunk as int)),
    {
        if let Some(e) = self.write_fault {
            return FlushResult::Fail(e);
        }
        if self.session.pending_ciphertext() == 0 {
            return FlushResult::Done;
        }
        match self.progress(false, true) {
            Progress::Fail(e) => {
                return FlushResult::Fail(e);
            },
            _ => {},
        }
        if self.session.pending_ciphertext() == 0 {
            FlushResult::Done
        } else {
            FlushResult::WouldBlock
        }
    }

    /// Initiate an orderly shutdown of the write direction: queue the
    /// close-notify if it has never been queued, mark the write direction
    /// shut, and drive pending ciphertext out. Reads stay allowed. Calling
    /// this again is safe and queues nothing new: the ciphertext stream is
    /// extended by exactly one close-notify over the stream's whole life,
    /// and only by the first call.
    pub fn shutdown(&mut self) -> (r: FlushResult)
        requires
            old(self).wf(),
        ensures
            final(self).wf(),
            old(self).bounded_tries(*final(self)),
            final(self).transport.read_tries@ == old(self).transport.read_tries@,
            old(self).read_side_unchanged(*final(self)),
            final(self).state == old(self).state.spec_shutdown_write(),
            (old(self).session.sent_close || old(self).state.spec_writeable()) ==> final(self).session.sent_close,
            old(self).session.sent_close || !old(self).state.spec_writeable() ==> final(self).cipher_out() == old(self).cipher_out(),
            !old(self).session.sent_close && old(self).state.spec_writeable() ==> final(self).cipher_out() == old(self).cipher_out() + spec_encode_record(
                KIND_CLOSE,
                Seq::<u8>::empty(),
            ),
            (old(self).write_fault matches Some(e) ==> r == FlushResult::Fail(e)),
            old(self).write_fault is None ==> ((r == FlushResult::Done) <==> final(self).session.send_buf@.len() == 0),
    {
        if self.state.writeable() {
            self.session.send_close_notify();
        }
        self.state.shutdown_write();
        if let Some(e) = self.write_fault {
            return FlushResult::Fail(e);
        }
        if self.session.pending_ciphertext() == 0 {
            return FlushResult::Done;
        }
        match self.progress(false, true) {
            Progress::Fail(e) => {
                return FlushResult::Fail(e);
            },
            _ => {},
        }
        if self.session.pending_ciphertext() == 0 {
            FlushResult::Done
        } else {
            FlushResult::WouldBlock
        }
    }
}

} // verus!
