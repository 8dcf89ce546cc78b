//! An in-memory, non-blocking duplex byte channel endpoint.
//!
//! This is the transport capability the adapter is written against: every
//! read or write is a single bounded attempt that either moves bytes, reports
//! "would block", reports end-of-stream, or reports a fault. Test harnesses
//! connect two endpoints by shuttling `take_outgoing` of one into
//! `feed_incoming` of the other, and can script would-block points, faults,
//! and per-attempt chunk caps.

use vstd::prelude::*;

verus! {

/// The outcome of one non-blocking read attempt.
#[derive(Debug)]
pub enum IoEvent {
    /// Bytes arrived; never empty.
    Data(Vec<u8>),
    /// Nothing available right now; retry when the transport is ready.
    WouldBlock,
    /// The peer closed its write half and everything sent has been consumed.
    Closed,
    /// The transport failed with the given code.
    Fault(u8),
}

/// The outcome of one non-blocking write attempt.
#[derive(Debug, Copy, Clone, PartialEq, Eq, Structural)]
pub enum WriteEvent {
    /// This many leading bytes were accepted; never zero.
    Accepted(usize),
    /// The transport cannot accept bytes right now.
    WouldBlock,
    /// The transport failed with the given code.
    Fault(u8),
}

/// One endpoint of an in-memory duplex byte channel.
pub struct MemTransport {
    /// Bytes the peer has placed on the wire toward this endpoint.
    pub rx: Vec<u8>,
    /// How many of `rx` have already been handed out by `try_read`.
    pub rx_pos: usize,
    /// Whether the peer has closed its write half.
    pub rx_closed: bool,
    /// Bytes this endpoint has written to the wire.
    pub tx: Vec<u8>,
    /// Most bytes a single attempt may move; at least 1.
    pub max_chunk: usize,
    /// Scripted: while set, read attempts report would-block.
    pub read_blocked: bool,
    /// Scripted: while set, write attempts report would-block.
    pub write_blocked: bool,
    /// Scripted: while set, read attempts report this fault.
    pub read_fault: Option<u8>,
    /// Scripted: while set, write attempts report this fault.
    pub write_fault: Option<u8>,
    /// Whether this endpoint has been closed locally.
    pub closed: bool,
    /// How many read attempts have been made.
    pub read_tries: Ghost<nat>,
    /// How many write attempts have been made.
    pub write_tries: Ghost<nat>,
}

impl MemTransport {
    /// Structural validity: the read cursor stays inside `rx` and the chunk
    /// cap is positive.
    pub open spec fn wf(self) -> bool {
        self.rx_pos <= self.rx@.len() && self.max_chunk >= 1
    }

    /// Bytes received but not yet consumed.
    pub open spec fn spec_avail(self) -> int {
        self.rx@.len() - self.rx_pos
    }

    /// Everything except the read side is unchanged.
    pub open spec fn read_side_frame(self, post: Self) -> bool {
        post.rx == self.rx && post.rx_closed == self.rx_closed && post.tx == self.tx
            && post.max_chunk == self.max_chunk && post.read_blocked == self.read_blocked
            && post.write_blocked == self.write_blocked && post.read_fault == self.read_fault
            && post.write_fault == self.write_fault && post.closed == self.closed
            && post.write_tries == self.write_tries
    }

    /// Everything except the write side is unchanged.
    pub open spec fn write_side_frame(self, post: Self) -> bool {
        post.rx == self.rx && post.rx_pos == self.rx_pos && post.rx_closed == self.rx_closed
            && post.max_chunk == self.max_chunk && post.read_blocked == self.read_blocked
            && post.write_blocked == self.write_blocked && post.read_fault == self.read_fault
            && post.write_fault == self.write_fault && post.closed == self.closed
            && post.read_tries == self.read_tries
    }

    /// A fresh endpoint with nothing on the wire and no scripting.
    pub fn new() -> (r: MemTransport)
        ensures
            r.wf(),
            r.rx@.len() == 0,
            r.rx_pos == 0,
            !r.rx_closed,
            r.tx@.len() == 0,
            r.max_chunk == usize::MAX,
            !r.read_blocked,
            !r.write_blocked,
            r.read_fault is None,
            r.write_fault is None,
            !r.closed,
            r.read_tries@ == 0,
            r.write_tries@ == 0,
    {
        MemTransport {
            rx: Vec::new(),
            rx_pos: 0,
            rx_closed: false,
            tx: Vec::new(),
            max_chunk: usize::MAX,
            read_blocked: false,
            write_blocked: false,
            read_fault: None,
            write_fault: None,
            closed: false,
            read_tries: Ghost(0),
            write_tries: Ghost(0),
        }
    }

    /// One non-blocking read attempt for at most `max` bytes.
    pub fn try_read(&mut self, max: usize) -> (r: IoEvent)
        requires
            old(self).wf(),
            max >= 1,
        ensures
            final(self).wf(),
            old(self).read_side_frame(*final(self)),
            final(self).read_tries@ == old(self).read_tries@ + 1,
            match r {
                IoEvent::Fault(c) => old(self).read_fault == Some(c) && final(self).rx_pos == old(
                    self,
                ).rx_pos,
                IoEvent::WouldBlock => old(self).read_fault is None && final(self).rx_pos == old(
                    self,
                ).rx_pos && (old(self).read_blocked || (old(self).spec_avail() == 0 && !old(
                    self,
                ).rx_closed)),
                IoEvent::Closed => old(self).read_fault is None && !old(self).read_blocked && old(
                    self,
                ).spec_avail() == 0 && old(self).rx_closed && final(self).rx_pos == old(
                    self,
                ).rx_pos,
                IoEvent::Data(v) => {
                    let n = v@.len();
                    &&& old(self).read_fault is None
                    &&& !old(self).read_blocked
                    &&& 1 <= n
                    &&& n <= max
                    &&& n <= old(self).max_chunk
                    &&& n == vstd::math::min(
                        vstd::math::min(old(self).spec_avail(), max as int),
                        old(self).max_chunk as int,
                    )
                    &&& v@ == old(self).rx@.subrange(
                        old(self).rx_pos as int,
                        old(self).rx_pos + n,
                    )
                    &&& final(self).rx_pos == old(self).rx_pos + n
                },
            },
    {
        self.read_tries = Ghost(self.read_tries@ + 1);
        if let Some(c) = self.read_fault {
            return IoEvent::Fault(c);
        }
        if self.read_blocked {
            return IoEvent::WouldBlock;
        }
        let avail: usize = self.rx.len() - self.rx_pos;
        if avail == 0 {
            if self.rx_closed {
                return IoEvent::Closed;
            }
            return IoEvent::WouldBlock;
        }
        let mut n: usize = avail;
        if max < n {
            n = max;
        }
        if self.max_chunk < n {
            n = self.max_chunk;
        }
        let mut v: Vec<u8> = Vec::new();
        let mut i: usize = 0;
        while i < n
            invariant
                i <= n,
                n <= self.rx@.len() - self.rx_pos,
                self.rx_pos + n <= usize::MAX,
                v@ == self.rx@.subrange(self.rx_pos as int, self.rx_pos + i),
            decreases n - i,
        {
            let b: u8 = self.rx[self.rx_pos + i];
            v.push(b);
            i = i + 1;
            proof {
                assert(v@ == self.rx@.subrange(self.rx_pos as int, self.rx_pos + i));
            }
        }
        self.rx_pos = self.rx_pos + n;
        IoEvent::Data(v)
    }

    /// One non-blocking write attempt of a leading slice of `data`.
    pub fn try_write(&mut self, data: &[u8]) -> (r: WriteEvent)
        requires
            old(self).wf(),
            data@.len() >= 1,
        ensures
            final(self).wf(),
            old(self).write_side_frame(*final(self)),
            final(self).write_tries@ == old(self).write_tries@ + 1,
            match r {
                WriteEvent::Fault(c) => old(self).write_fault == Some(c) && final(self).tx == old(
                    self,
                ).tx,
                WriteEvent::WouldBlock => old(self).write_fault is None && old(self).write_blocked
                    && final(self).tx == old(self).tx,
                WriteEvent::Accepted(n) => {
                    &&& old(self).write_fault is None
                    &&& !old(self).write_blocked
                    &&& 1 <= n
                    &&& n as int == vstd::math::min(data@.len() as int, old(self).max_chunk as int)
                    &&& final(self).tx@ == old(self).tx@ + data@.take(n as int)
                },
            },
    {
        self.write_tries = Ghost(self.write_tries@ + 1);
        if let Some(c) = self.write_fault {
            return WriteEvent::Fault(c);
        }
        if self.write_blocked {
            return WriteEvent::WouldBlock;
        }
        let mut n: usize = data.len();
        if self.max_chunk < n {
            n = self.max_chunk;
        }
        let mut i: usize = 0;
        while i < n
            invariant
                i <= n,
                n <= data@.len(),
                self.tx@ == old(self).tx@ + data@.take(i as int),
                old(self).write_side_frame(*self),
                self.write_tries@ == old(self).write_tries@ + 1,
                self.wf(),
            decreases n - i,
        {
            let b: u8 = data[i];
            self.tx.push(b);
            i = i + 1;
            proof {
                assert(data@.take(i as int) == data@.take(i - 1).push(data@[i - 1]));
            }
        }
        WriteEvent::Accepted(n)
    }

    /// Harness side: the peer placed `bytes` on the wire toward this endpoint.
    pub fn feed_incoming(&mut self, bytes: &[u8])
        requires
            old(self).wf(),
        ensures
            final(self).wf(),
            final(self).rx@ == old(self).rx@ + bytes@,
            *final(self) == (MemTransport { rx: final(self).rx, ..*old(self) }),
    {
        self.rx.extend_from_slice(bytes);
    }

    /// Harness side: drain everything this endpoint has written to the wire.
    pub fn take_outgoing(&mut self) -> (r: Vec<u8>)
        requires
            old(self).wf(),
        ensures
            final(self).wf(),
            r == old(self).tx,
            final(self).tx@.len() == 0,
            *final(self) == (MemTransport { tx: final(self).tx, ..*old(self) }),
    {
        let mut out: Vec<u8> = Vec::new();
        core::mem::swap(&mut self.tx, &mut out);
        out
    }

    /// Harness side: the peer closed its write half.
    pub fn close_incoming(&mut self)
        requires
            old(self).wf(),
        ensures
            final(self).wf(),
            final(self).rx_closed,
            *final(self) == (MemTransport { rx_closed: true, ..*old(self) }),
    {
        self.rx_closed = true;
    }

    /// Script whether read attempts report would-block.
    pub fn set_read_blocked(&mut self, blocked: bool)
        requires
            old(self).wf(),
        ensures
            final(self).wf(),
            *final(self) == (MemTransport { read_blocked: blocked, ..*old(self) }),
    {
        self.read_blocked = blocked;
    }

    /// Script whether write attempts report would-block.
    pub fn set_write_blocked(&mut self, blocked: bool)
        requires
            old(self).wf(),
        ensures
            final(self).wf(),
            *final(self) == (MemTransport { write_blocked: blocked, ..*old(self) }),
    {
        self.write_blocked = blocked;
    }

    /// Script a persistent read fault.
    pub fn set_read_fault(&mut self, fault: Option<u8>)
        requires
            old(self).wf(),
        ensures
            final(self).wf(),
            *final(self) == (MemTransport { read_fault: fault, ..*old(self) }),
    {
        self.read_fault = fault;
    }

    /// Script a persistent write fault.
    pub fn set_write_fault(&mut self, fault: Option<u8>)
        requires
            old(self).wf(),
        ensures
            final(self).wf(),
            *final(self) == (MemTransport { write_fault: fault, ..*old(self) }),
    {
        self.write_fault = fault;
    }

    /// Cap how many bytes a single attempt may move.
    pub fn set_max_chunk(&mut self, chunk: usize)
        requires
            old(self).wf(),
            chunk >= 1,
        ensures
            final(self).wf(),
            *final(self) == (MemTransport { max_chunk: chunk, ..*old(self) }),
    {
        self.max_chunk = chunk;
    }

    /// Close this endpoint; always safe, whatever state it is in.
    pub fn close(&mut self)
        requires
            old(self).wf(),
        ensures
            final(self).wf(),
            final(self).closed,
            *final(self) == (MemTransport { closed: true, ..*old(self) }),
    {
        self.closed = true;
    }
}

} // verus!
