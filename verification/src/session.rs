//! The in-memory session engine: the TLS-like capability the adapter drives.
//!
//! The engine exchanges framed records over the ciphertext side and exposes
//! plaintext buffers on the application side. Its handshake is a three-message
//! exchange: the client offers a hello, the server answers with a hello that
//! carries its certificate identifier, and the client finishes if one of its
//! trust anchors covers that identifier. Application data and close-notify
//! travel as further record kinds. Certificates and trust anchors are carried
//! as plain identifiers; the embedded default root set is modeled by the
//! single well-known identifier `DEFAULT_ROOT_ID`.
//!
//! Every operation is total and bounded: feeding ciphertext only appends to a
//! buffer, and `process` parses exactly the complete records present, so a
//! partial record left by a short transport read is resumed, never dropped.

use vstd::prelude::*;

use crate::error::ProtocolError;

verus! {

/// Record kind: the client's opening hello (empty payload).
pub const KIND_HELLO_CLIENT: u8 = 1;

/// Record kind: the server's hello; the payload is its certificate id.
pub const KIND_HELLO_SERVER: u8 = 2;

/// Record kind: the client's confirmation that the handshake is done.
pub const KIND_FINISH: u8 = 3;

/// Record kind: application data.
pub const KIND_DATA: u8 = 4;

/// Record kind: close-notify (empty payload).
pub const KIND_CLOSE: u8 = 5;

/// The certificate id that the embedded default trust anchors cover.
pub const DEFAULT_ROOT_ID: u8 = 0;

/// A record on the wire: its kind, a length byte, then that many payload
/// bytes.
pub open spec fn spec_encode_record(kind: u8, payload: Seq<u8>) -> Seq<u8> {
    seq![kind, payload.len() as u8] + payload
}

/// Whether `buf` starts with a complete record.
pub open spec fn has_complete_record(buf: Seq<u8>) -> bool {
    buf.len() >= 2 && buf.len() >= 2 + buf[1]
}

/// If `buf` is exactly a run of complete data records, the concatenation of
/// their payloads, in order; otherwise nothing.
pub open spec fn data_stream(buf: Seq<u8>) -> Option<Seq<u8>>
    decreases buf.len(),
{
    if buf.len() == 0 {
        Some(Seq::empty())
    } else if buf.len() >= 2 && buf[0] == KIND_DATA && buf.len() >= 2 + buf[1] {
        match data_stream(buf.skip(2 + buf[1])) {
            Some(rest) => Some(buf.subrange(2, 2 + buf[1]) + rest),
            None => None,
        }
    } else {
        None
    }
}

/// The encoding of one data record followed by `rest` parses back to exactly
/// that payload followed by whatever `rest` parses to.
pub proof fn lemma_data_record_round_trip(payload: Seq<u8>, rest: Seq<u8>)
    requires
        payload.len() <= 255,
    ensures
        data_stream(spec_encode_record(KIND_DATA, payload) + rest) == (match data_stream(rest) {
            Some(r) => Some(payload + r),
            None => None::<Seq<u8>>,
        }),
{
    let buf = spec_encode_record(KIND_DATA, payload) + rest;
    assert(buf.len() == 2 + payload.len() + rest.len());
    assert(buf[0] == KIND_DATA);
    assert(buf[1] == payload.len() as u8);
    assert(buf.skip(2 + buf[1]) == rest) by {
        assert(buf.skip(2 + payload.len() as int) =~= rest);
    }
    assert(buf.subrange(2, 2 + buf[1]) == payload) by {
        assert(buf.subrange(2, 2 + payload.len() as int) =~= payload);
    }
}

/// A sequence of payloads encoded as consecutive data records.
pub open spec fn encode_data_records(ps: Seq<Seq<u8>>) -> Seq<u8>
    decreases ps.len(),
{
    if ps.len() == 0 {
        Seq::empty()
    } else {
        spec_encode_record(KIND_DATA, ps[0]) + encode_data_records(ps.drop_first())
    }
}

/// The concatenation of a sequence of payloads.
pub open spec fn flatten_payloads(ps: Seq<Seq<u8>>) -> Seq<u8>
    decreases ps.len(),
{
    if ps.len() == 0 {
        Seq::empty()
    } else {
        ps[0] + flatten_payloads(ps.drop_first())
    }
}

/// Round-trip fidelity: payloads framed as data records and fed back through
/// the record parser come out identical and in the same order, however many
/// records there are.
pub proof fn lemma_round_trip(ps: Seq<Seq<u8>>)
    requires
        forall|i: int| 0 <= i < ps.len() ==> (#[trigger] ps[i]).len() <= 255,
    ensures
        data_stream(encode_data_records(ps)) == Some(flatten_payloads(ps)),
    decreases ps.len(),
{
    if ps.len() == 0 {
        assert(encode_data_records(ps).len() == 0);
    } else {
        lemma_round_trip(ps.drop_first());
        lemma_data_record_round_trip(ps[0], encode_data_records(ps.drop_first()));
    }
}

/// If every complete record leading `buf` is a data record, the
/// concatenation of their payloads together with the trailing bytes that do
/// not yet form a complete record; otherwise nothing. The trailing bytes are
/// exactly what a parser must retain to resume without loss when the rest of
/// the stream arrives.
pub open spec fn data_split(buf: Seq<u8>) -> Option<(Seq<u8>, Seq<u8>)>
    decreases buf.len(),
{
    if !has_complete_record(buf) {
        Some((Seq::empty(), buf))
    } else if buf[0] == KIND_DATA {
        match data_split(buf.skip(2 + buf[1])) {
            Some(pr) => Some((buf.subrange(2, 2 + buf[1]) + pr.0, pr.1)),
            None => None,
        }
    } else {
        None
    }
}

/// The payload sequence a parse produced, or empty where it produced none.
pub open spec fn stream_or_empty(o: Option<Seq<u8>>) -> Seq<u8> {
    match o {
        Some(s) => s,
        None => Seq::empty(),
    }
}

/// Partial-progress safety: cut a well-formed run of data records at any
/// point. Parsing the first part delivers a leading prefix of the payload
/// bytes and retains exactly the trailing partial record; prepending that
/// remainder to the second part and parsing again delivers precisely the
/// rest. Wherever the cut falls, no byte is dropped or duplicated and the
/// order is kept.
pub proof fn lemma_resumed_parse(buf: Seq<u8>, i: int)
    requires
        data_stream(buf) is Some,
        0 <= i <= buf.len(),
    ensures
        (data_split(buf.take(i)) matches Some(pr) && pr.0.len() <= stream_or_empty(
            data_stream(buf),
        ).len() && pr.0 == stream_or_empty(data_stream(buf)).take(pr.0.len() as int)
            && data_stream(pr.1 + buf.skip(i)) == Some(
            stream_or_empty(data_stream(buf)).skip(pr.0.len() as int),
        )),
    decreases buf.len(),
{
    let s = stream_or_empty(data_stream(buf));
    if buf.len() == 0 {
        assert(data_split(buf.take(i)) == Some((Seq::<u8>::empty(), buf.take(i))));
        assert(Seq::<u8>::empty() + buf.skip(i) =~= buf);
        assert(s.take(0) =~= Seq::<u8>::empty());
        assert(s.skip(0) =~= s);
    } else {
        let ln = buf[1] as int;
        let payload = buf.subrange(2, 2 + ln);
        let rest = buf.skip(2 + ln);
        let s2 = stream_or_empty(data_stream(rest));
        assert(buf[0] == KIND_DATA);
        assert(data_stream(rest) is Some);
        assert(s == payload + s2);
        if i < 2 + ln {
            assert(!has_complete_record(buf.take(i)));
            assert(data_split(buf.take(i)) == Some((Seq::<u8>::empty(), buf.take(i))));
            assert(buf.take(i) + buf.skip(i) =~= buf);
            assert(s.take(0) =~= Seq::<u8>::empty());
            assert(s.skip(0) =~= s);
        } else {
            lemma_resumed_parse(rest, i - (2 + ln));
            let front = buf.take(i);
            assert(front.len() == i);
            assert(front[0] == KIND_DATA);
            assert(front[1] == buf[1]);
            assert(has_complete_record(front));
            assert(front.skip(2 + ln) =~= rest.take(i - (2 + ln)));
            assert(front.subrange(2, 2 + ln) =~= payload);
            assert(buf.skip(i) =~= rest.skip(i - (2 + ln)));
            match data_split(rest.take(i - (2 + ln))) {
                Some(pr2) => {
                    assert(pr2.0 == s2.take(pr2.0.len() as int));
                    assert(data_stream(pr2.1 + rest.skip(i - (2 + ln))) == Some(
                        s2.skip(pr2.0.len() as int),
                    ));
                    assert(data_split(front) == Some((payload + pr2.0, pr2.1)));
                    let k = pr2.0.len() as int;
                    assert(k <= s2.len());
                    assert(payload + pr2.0 == s.take(payload.len() + k)) by {
                        assert(s.take(payload.len() + k) =~= payload + s2.take(k));
                    }
                    assert(s2.skip(k) =~= s.skip(payload.len() + k));
                },
                None => {
                    assert(false);
                },
            }
        }
    }
}

/// Whether `v` holds `id`.
fn anchors_contain(v: &Vec<u8>, id: u8) -> (r: bool)
    ensures
        r == v@.contains(id),
{
    let mut i: usize = 0;
    while i < v.len()
        invariant
            i <= v@.len(),
            forall|j: int| 0 <= j < i ==> v@[j] != id,
        decreases v@.len() - i,
    {
        if v[i] == id {
            return true;
        }
        i = i + 1;
    }
    false
}

/// The session engine: handshake state, record buffers, and plaintext
/// buffers for one connection endpoint.
pub struct Session {
    /// Whether this endpoint plays the client role.
    pub role_client: bool,
    /// Client: certificate ids covered by explicitly configured anchors.
    pub anchors: Vec<u8>,
    /// Client: whether the embedded default root set is also trusted.
    pub default_roots: bool,
    /// Server: the certificate id this endpoint presents.
    pub cert_id: u8,
    /// Client: whether plaintext is accepted before the handshake completes.
    pub early_accept: bool,
    /// Whether this endpoint's hello has been queued.
    pub hello_sent: bool,
    /// Whether the peer's hello has been received.
    pub hello_received: bool,
    /// Client: whether the finish record has been queued.
    pub finish_sent: bool,
    /// Server: whether the client's finish record has been received.
    pub finish_received: bool,
    /// Whether the handshake is complete.
    pub complete: bool,
    /// Ciphertext fed from the transport, not yet parsed into records.
    pub recv_buf: Vec<u8>,
    /// Ciphertext produced, awaiting the transport.
    pub send_buf: Vec<u8>,
    /// Plaintext received, awaiting the caller.
    pub plain_in: Vec<u8>,
    /// Whether the peer's close-notify has been received.
    pub peer_closed: bool,
    /// Whether this endpoint's close-notify has been queued.
    pub sent_close: bool,
    /// A protocol failure; once set, the engine refuses further work.
    pub error: Option<ProtocolError>,
}

impl Session {
    /// Whether a certificate id is covered by the configured trust anchors.
    pub open spec fn spec_cert_trusted(self, id: u8) -> bool {
        self.anchors@.contains(id) || (self.default_roots && id == DEFAULT_ROOT_ID)
    }

    /// Whether the engine accepts plaintext for transmission.
    pub open spec fn spec_may_write(self) -> bool {
        self.error is None && (self.complete || self.early_accept)
    }

    /// The receive buffer holds exactly one client-hello record.
    pub open spec fn sole_client_hello(self) -> bool {
        self.recv_buf@.len() == 2 && self.recv_buf@[0] == KIND_HELLO_CLIENT && self.recv_buf@[1]
            == 0
    }

    /// The receive buffer holds exactly one server-hello record; the
    /// certificate id it carries is `recv_buf[2]`.
    pub open spec fn sole_server_hello(self) -> bool {
        self.recv_buf@.len() == 3 && self.recv_buf@[0] == KIND_HELLO_SERVER && self.recv_buf@[1]
            == 1
    }

    /// The receive buffer holds exactly one finish record.
    pub open spec fn sole_finish(self) -> bool {
        self.recv_buf@.len() == 2 && self.recv_buf@[0] == KIND_FINISH && self.recv_buf@[1] == 0
    }

    /// The receive buffer holds exactly one close-notify record.
    pub open spec fn sole_close(self) -> bool {
        self.recv_buf@.len() == 2 && self.recv_buf@[0] == KIND_CLOSE && self.recv_buf@[1] == 0
    }

    /// What `process` does to a waiting server that receives the client's
    /// hello: it notes the hello and answers with its own hello carrying its
    /// certificate id.
    pub open spec fn served_client_hello(self, post: Self) -> bool {
        &&& post == (Session {
            hello_sent: true,
            hello_received: true,
            send_buf: post.send_buf,
            recv_buf: post.recv_buf,
            ..self
        })
        &&& post.send_buf@ == self.send_buf@ + spec_encode_record(
            KIND_HELLO_SERVER,
            seq![self.cert_id],
        )
        &&& post.recv_buf@.len() == 0
    }

    /// What `process` does to a client that receives the server's hello: an
    /// id covered by the trust anchors completes the handshake and queues
    /// the finish record; any other id poisons the engine with
    /// `BadCertificate` and completes nothing.
    pub open spec fn judged_server_hello(self, post: Self, id: u8) -> bool {
        if self.spec_cert_trusted(id) {
            &&& post == (Session {
                hello_received: true,
                finish_sent: true,
                complete: true,
                send_buf: post.send_buf,
                recv_buf: post.recv_buf,
                ..self
            })
            &&& post.send_buf@ == self.send_buf@ + spec_encode_record(
                KIND_FINISH,
                Seq::<u8>::empty(),
            )
            &&& post.recv_buf@.len() == 0
        } else {
            &&& post == (Session {
                hello_received: true,
                error: Some(ProtocolError::BadCertificate),
                recv_buf: post.recv_buf,
                ..self
            })
            &&& post.recv_buf@.len() == 0
        }
    }

    /// What `process` does to a server that receives the client's finish:
    /// the handshake completes.
    pub open spec fn accepted_finish(self, post: Self) -> bool {
        &&& post == (Session {
            finish_received: true,
            complete: true,
            recv_buf: post.recv_buf,
            ..self
        })
        &&& post.recv_buf@.len() == 0
    }

    /// What `process` does on receiving the peer's close-notify alone.
    pub open spec fn noted_close(self, post: Self) -> bool {
        &&& post == (Session { peer_closed: true, recv_buf: post.recv_buf, ..self })
        &&& post.recv_buf@.len() == 0
    }

    /// The configuration and identity fields never change after creation.
    pub open spec fn config_frame(self, post: Self) -> bool {
        post.role_client == self.role_client && post.anchors == self.anchors
            && post.default_roots == self.default_roots && post.cert_id == self.cert_id
            && post.early_accept == self.early_accept
    }

    /// Handshake and shutdown flags only ever move forward.
    pub open spec fn flags_monotone(self, post: Self) -> bool {
        (self.hello_sent ==> post.hello_sent) && (self.hello_received ==> post.hello_received) && (
        self.finish_sent ==> post.finish_sent) && (self.finish_received
            ==> post.finish_received) && (self.complete ==> post.complete) && (self.peer_closed
            ==> post.peer_closed) && (self.sent_close ==> post.sent_close)
    }

    /// A fresh client session; its hello is queued immediately.
    pub fn new_client(anchors: Vec<u8>, default_roots: bool, early_accept: bool) -> (r: Session)
        ensures
            r.role_client,
            r.anchors == anchors,
            r.default_roots == default_roots,
            r.cert_id == DEFAULT_ROOT_ID,
            r.early_accept == early_accept,
            r.hello_sent,
            !r.hello_received,
            !r.finish_sent,
            !r.finish_received,
            !r.complete,
            r.recv_buf@.len() == 0,
            r.send_buf@ == spec_encode_record(KIND_HELLO_CLIENT, Seq::<u8>::empty()),
            r.plain_in@.len() == 0,
            !r.peer_closed,
            !r.sent_close,
            r.error is None,
    {
        let mut send_buf: Vec<u8> = Vec::new();
        send_buf.push(KIND_HELLO_CLIENT);
        send_buf.push(0);
        proof {
            assert(send_buf@ =~= spec_encode_record(KIND_HELLO_CLIENT, Seq::<u8>::empty()));
        }
        Session {
            role_client: true,
            anchors,
            default_roots,
            cert_id: DEFAULT_ROOT_ID,
            early_accept,
            hello_sent: true,
            hello_received: false,
            finish_sent: false,
            finish_received: false,
            complete: false,
            recv_buf: Vec::new(),
            send_buf,
            plain_in: Vec::new(),
            peer_closed: false,
            sent_close: false,
            error: None,
        }
    }

    /// A fresh server session presenting the given certificate id; it speaks
    /// only after the client's hello arrives.
    pub fn new_server(cert_id: u8) -> (r: Session)
        ensures
            !r.role_client,
            r.anchors@.len() == 0,
            !r.default_roots,
            r.cert_id == cert_id,
            !r.early_accept,
            !r.hello_sent,
            !r.hello_received,
            !r.finish_sent,
            !r.finish_received,
            !r.complete,
            r.recv_buf@.len() == 0,
            r.send_buf@.len() == 0,
            r.plain_in@.len() == 0,
            !r.peer_closed,
            !r.sent_close,
            r.error is None,
    {
        Session {
            role_client: false,
            anchors: Vec::new(),
            default_roots: false,
            cert_id,
            early_accept: false,
            hello_sent: false,
            hello_received: false,
            finish_sent: false,
            finish_received: false,
            complete: false,
            recv_buf: Vec::new(),
            send_buf: Vec::new(),
            plain_in: Vec::new(),
            peer_closed: false,
            sent_close: false,
            error: None,
        }
    }

    /// Accept ciphertext from the transport; every byte is kept, in order.
    pub fn feed_ciphertext(&mut self, bytes: &[u8]) -> (consumed: usize)
        ensures
            consumed == bytes@.len(),
            final(self).recv_buf@ == old(self).recv_buf@ + bytes@,
            *final(self) == (Session { recv_buf: final(self).recv_buf, ..*old(self) }),
    {
        self.recv_buf.extend_from_slice(bytes);
        bytes.len()
    }

    /// Copy up to `max` bytes of pending ciphertext without removing them.
    pub fn produce_ciphertext(&self, max: usize) -> (r: Vec<u8>)
        ensures
            r@ == self.send_buf@.take(vstd::math::min(max as int, self.send_buf@.len() as int)),
    {
        let mut n: usize = self.send_buf.len();
        if max < n {
            n = max;
        }
        let mut v: Vec<u8> = Vec::new();
        let mut i: usize = 0;
        while i < n
            invariant
                i <= n,
                n <= self.send_buf@.len(),
                v@ == self.send_buf@.take(i as int),
            decreases n - i,
        {
            let b: u8 = self.send_buf[i];
            v.push(b);
            i = i + 1;
            proof {
                assert(v@ =~= self.send_buf@.take(i as int));
            }
        }
        v
    }

    /// The transport accepted `n` leading bytes of pending ciphertext; drop
    /// them. The remainder stays queued, so a short write loses nothing.
    pub fn ciphertext_taken(&mut self, n: usize)
        requires
            n <= old(self).send_buf@.len(),
        ensures
            final(self).send_buf@ == old(self).send_buf@.skip(n as int),
            *final(self) == (Session { send_buf: final(self).send_buf, ..*old(self) }),
    {
        let tail = self.send_buf.split_off(n);
        self.send_buf = tail;
    }

    /// How much ciphertext is waiting for the transport.
    pub fn pending_ciphertext(&self) -> (r: usize)
        ensures
            r == self.send_buf@.len(),
    {
        self.send_buf.len()
    }

    /// Hand out up to `max` bytes of received plaintext, in arrival order.
    pub fn read_plaintext(&mut self, max: usize) -> (r: Vec<u8>)
        ensures
            r@ == old(self).plain_in@.take(
                vstd::math::min(max as int, old(self).plain_in@.len() as int),
            ),
            final(self).plain_in@ == old(self).plain_in@.skip(r@.len() as int),
            *final(self) == (Session { plain_in: final(self).plain_in, ..*old(self) }),
    {
        let mut n: usize = self.plain_in.len();
        if max < n {
            n = max;
        }
        let mut v: Vec<u8> = Vec::new();
        let mut i: usize = 0;
        while i < n
            invariant
                i <= n,
                n <= self.plain_in@.len(),
                v@ == self.plain_in@.take(i as int),
                *self == (Session { plain_in: self.plain_in, ..*old(self) }),
                self.plain_in == old(self).plain_in,
            decreases n - i,
        {
            let b: u8 = self.plain_in[i];
            v.push(b);
            i = i + 1;
            proof {
                assert(v@ =~= self.plain_in@.take(i as int));
            }
        }
        let tail = self.plain_in.split_off(n);
        self.plain_in = tail;
        v
    }

    /// How much received plaintext is waiting for the caller.
    pub fn pending_plaintext(&self) -> (r: usize)
        ensures
            r == self.plain_in@.len(),
    {
        self.plain_in.len()
    }

    /// Accept plaintext for encryption: a leading chunk of at most 255 bytes
    /// is framed as one data record and queued, in submission order. Nothing
    /// is accepted while the engine may not write.
    pub fn write_plaintext(&mut self, data: &[u8]) -> (accepted: usize)
        ensures
            !old(self).spec_may_write() || data@.len() == 0 ==> accepted == 0 && *final(self)
                == *old(self),
            old(self).spec_may_write() && data@.len() >= 1 ==> {
                &&& accepted as int == vstd::math::min(data@.len() as int, 255)
                &&& final(self).send_buf@ == old(self).send_buf@ + spec_encode_record(
                    KIND_DATA,
                    data@.take(accepted as int),
                )
                &&& *final(self) == (Session { send_buf: final(self).send_buf, ..*old(self) })
            },
    {
        if self.error.is_some() || !(self.complete || self.early_accept) || data.len() == 0 {
            return 0;
        }
        let mut n: usize = data.len();
        if n > 255 {
            n = 255;
        }
        self.send_buf.push(KIND_DATA);
        self.send_buf.push(n as u8);
        let mut i: usize = 0;
        while i < n
            invariant
                i <= n,
                1 <= n <= data@.len(),
                n <= 255,
                self.send_buf@ == old(self).send_buf@ + seq![KIND_DATA, n as u8] + data@.take(
                    i as int,
                ),
                *self == (Session { send_buf: self.send_buf, ..*old(self) }),
            decreases n - i,
        {
            let b: u8 = data[i];
            self.send_buf.push(b);
            i = i + 1;
            proof {
                assert(self.send_buf@ =~= old(self).send_buf@ + seq![KIND_DATA, n as u8]
                    + data@.take(i as int));
            }
        }
        proof {
            assert(self.send_buf@ =~= old(self).send_buf@ + spec_encode_record(
                KIND_DATA,
                data@.take(n as int),
            ));
        }
        n
    }

    /// Whether the engine wants more ciphertext from the transport.
    pub fn wants_read(&self) -> (r: bool)
        ensures
            r == (self.error is None && !self.peer_closed),
    {
        self.error.is_none() && !self.peer_closed
    }

    /// Whether ciphertext is waiting to go out to the transport.
    pub fn wants_write(&self) -> (r: bool)
        ensures
            r == (self.send_buf@.len() > 0),
    {
        self.send_buf.len() > 0
    }

    /// Whether the handshake is still in progress.
    pub fn is_handshaking(&self) -> (r: bool)
        ensures
            r == !self.complete,
    {
        !self.complete
    }

    /// The protocol failure, if the engine has hit one.
    pub fn last_error(&self) -> (r: Option<ProtocolError>)
        ensures
            r == self.error,
    {
        self.error
    }

    /// Whether the peer's close-notify has arrived.
    pub fn peer_has_closed(&self) -> (r: bool)
        ensures
            r == self.peer_closed,
    {
        self.peer_closed
    }

    /// Parse every complete record now sitting in the receive buffer and
    /// apply it: handshake records advance the handshake, data records append
    /// their payloads to the plaintext buffer in arrival order, close-notify
    /// marks the peer closed, and anything ill-formed poisons the engine. A
    /// trailing partial record is left in place for a later feed to complete.
    pub fn process(&mut self)
        ensures
            old(self).config_frame(*final(self)),
            old(self).flags_monotone(*final(self)),
            final(self).sent_close == old(self).sent_close,
            old(self).plain_in@.is_prefix_of(final(self).plain_in@),
            old(self).send_buf@.is_prefix_of(final(self).send_buf@),
            old(self).error is Some ==> *final(self) == *old(self),
            !has_complete_record(old(self).recv_buf@) ==> *final(self) == *old(self),
            old(self).error is None && old(self).complete && data_stream(old(self).recv_buf@)
                is Some ==> {
                &&& final(self).plain_in@ == old(self).plain_in@ + stream_or_empty(
                    data_stream(old(self).recv_buf@),
                )
                &&& final(self).recv_buf@.len() == 0
                &&& final(self).error is None
                &&& *final(self) == (Session {
                    plain_in: final(self).plain_in,
                    recv_buf: final(self).recv_buf,
                    ..*old(self)
                })
            },
            (data_split(old(self).recv_buf@) matches Some(pr) ==> old(self).error is None && old(
                self).complete ==> {
                &&& final(self).plain_in@ == old(self).plain_in@ + pr.0
                &&& final(self).recv_buf@ == pr.1
                &&& final(self).error is None
                &&& *final(self) == (Session {
                    plain_in: final(self).plain_in,
                    recv_buf: final(self).recv_buf,
                    ..*old(self)
                })
            }),
            old(self).error is None && !old(self).role_client && !old(self).hello_received && old(
                self).sole_client_hello() ==> old(self).served_client_hello(*final(self)),
            old(self).error is None && old(self).role_client && !old(self).hello_received && old(
                self).sole_server_hello() ==> old(self).judged_server_hello(
                *final(self),
                old(self).recv_buf@[2],
            ),
            old(self).error is None && !old(self).role_client && old(self).hello_sent && old(
                self).sole_finish() ==> old(self).accepted_finish(*final(self)),
            old(self).error is None && old(self).sole_close() ==> old(self).noted_close(
                *final(self),
            ),
    {
        if self.error.is_some() {
            return ;
        }
        loop
            invariant
                old(self).config_frame(*self),
                old(self).flags_monotone(*self),
                self.sent_close == old(self).sent_close,
                old(self).plain_in@.is_prefix_of(self.plain_in@),
                old(self).send_buf@.is_prefix_of(self.send_buf@),
                old(self).error is None,
                !has_complete_record(old(self).recv_buf@) ==> *self == *old(self),
                old(self).complete && data_stream(old(self).recv_buf@) is Some ==> {
                    &&& self.error is None
                    &&& data_stream(self.recv_buf@) is Some
                    &&& old(self).plain_in@ + stream_or_empty(data_stream(old(self).recv_buf@))
                        == self.plain_in@ + stream_or_empty(data_stream(self.recv_buf@))
                    &&& *self == (Session {
                        plain_in: self.plain_in,
                        recv_buf: self.recv_buf,
                        ..*old(self)
                    })
                },
                self.error is Some ==> !(old(self).complete && data_stream(old(self).recv_buf@)
                    is Some),
                (data_split(old(self).recv_buf@) matches Some(pr0) ==> old(self).complete ==> {
                    &&& self.error is None
                    &&& (data_split(self.recv_buf@) matches Some(pr) && old(self).plain_in@ + pr0.0
                        == self.plain_in@ + pr.0 && pr.1 == pr0.1)
                    &&& *self == (Session {
                        plain_in: self.plain_in,
                        recv_buf: self.recv_buf,
                        ..*old(self)
                    })
                }),
                self.error is Some ==> !(old(self).complete && data_split(old(self).recv_buf@)
                    is Some),
                !old(self).role_client && !old(self).hello_received && old(
                    self).sole_client_hello() ==> *self == *old(self) || old(
                    self).served_client_hello(*self),
                old(self).role_client && !old(self).hello_received && old(self).sole_server_hello()
                    ==> *self == *old(self) || old(self).judged_server_hello(
                    *self,
                    old(self).recv_buf@[2],
                ),
                !old(self).role_client && old(self).hello_sent && old(self).sole_finish() ==> *self
                    == *old(self) || old(self).accepted_finish(*self),
                old(self).sole_close() ==> *self == *old(self) || old(self).noted_close(*self),
            ensures
                old(self).config_frame(*self),
                old(self).flags_monotone(*self),
                self.sent_close == old(self).sent_close,
                old(self).plain_in@.is_prefix_of(self.plain_in@),
                old(self).send_buf@.is_prefix_of(self.send_buf@),
                !has_complete_record(old(self).recv_buf@) ==> *self == *old(self),
                old(self).complete && data_stream(old(self).recv_buf@) is Some ==> {
                    &&& self.error is None
                    &&& self.recv_buf@.len() == 0
                    &&& self.plain_in@ == old(self).plain_in@ + stream_or_empty(
                        data_stream(old(self).recv_buf@),
                    )
                    &&& *self == (Session {
                        plain_in: self.plain_in,
                        recv_buf: self.recv_buf,
                        ..*old(self)
                    })
                },
                (data_split(old(self).recv_buf@) matches Some(pr0) ==> old(self).complete ==> {
                    &&& self.error is None
                    &&& self.plain_in@ == old(self).plain_in@ + pr0.0
                    &&& self.recv_buf@ == pr0.1
                    &&& *self == (Session {
                        plain_in: self.plain_in,
                        recv_buf: self.recv_buf,
                        ..*old(self)
                    })
                }),
                !old(self).role_client && !old(self).hello_received && old(
                    self).sole_client_hello() ==> old(self).served_client_hello(*self),
                old(self).role_client && !old(self).hello_received && old(self).sole_server_hello()
                    ==> old(self).judged_server_hello(*self, old(self).recv_buf@[2]),
                !old(self).role_client && old(self).hello_sent && old(self).sole_finish() ==> old(
                    self).accepted_finish(*self),
                old(self).sole_close() ==> old(self).noted_close(*self),
            decreases self.recv_buf@.len(),
        {
            let ghost pre = *self;
            if self.error.is_some() {
                break ;
            }
            let l = self.recv_buf.len();
            if l < 2 {
                break ;
            }
            let kind = self.recv_buf[0];
            let plen = self.recv_buf[1] as usize;
            if l < 2 + plen {
                break ;
            }
            proof {
                if old(self).complete && data_stream(old(self).recv_buf@) is Some {
                    assert(data_stream(pre.recv_buf@) is Some);
                    assert(pre.recv_buf@[0] == KIND_DATA);
                }
                if old(self).complete && data_split(old(self).recv_buf@) is Some {
                    assert(data_split(pre.recv_buf@) is Some);
                    assert(has_complete_record(pre.recv_buf@));
                    assert(pre.recv_buf@[0] == KIND_DATA);
                }
            }
            let mut payload: Vec<u8> = Vec::new();
            let mut i: usize = 0;
            while i < plen
                invariant
                    i <= plen,
                    plen <= 255,
                    2 + plen <= self.recv_buf@.len(),
                    payload@ == self.recv_buf@.subrange(2, 2 + i),
                    *self == pre,
                decreases plen - i,
            {
                let b: u8 = self.recv_buf[2 + i];
                payload.push(b);
                i = i + 1;
                proof {
                    assert(payload@ =~= self.recv_buf@.subrange(2, 2 + i));
                }
            }
            let tail = self.recv_buf.split_off(2 + plen);
            self.recv_buf = tail;
            proof {
                assert(self.recv_buf@ == pre.recv_buf@.skip(2 + plen));
            }
            if kind == KIND_DATA {
                if self.complete || (!self.role_client && self.hello_received) {
                    self.plain_in.extend_from_slice(payload.as_slice());
                    proof {
                        assert(old(self).plain_in@.is_prefix_of(self.plain_in@)) by {
                            assert(self.plain_in@.take(old(self).plain_in@.len() as int)
                                =~= old(self).plain_in@);
                        }
                    }
                } else {
                    self.error = Some(ProtocolError::UnexpectedRecord);
                }
            } else if kind == KIND_HELLO_CLIENT {
                if self.role_client || self.hello_received {
                    self.error = Some(ProtocolError::UnexpectedRecord);
                } else if plen != 0 {
                    self.error = Some(ProtocolError::MalformedRecord);
                } else {
                    self.hello_received = true;
                    self.send_buf.push(KIND_HELLO_SERVER);
                    self.send_buf.push(1);
                    let id = self.cert_id;
                    self.send_buf.push(id);
                    self.hello_sent = true;
                    proof {
                        assert(old(self).send_buf@.is_prefix_of(self.send_buf@)) by {
                            assert(self.send_buf@.take(old(self).send_buf@.len() as int)
                                =~= old(self).send_buf@);
                        }
                    }
                }
            } else if kind == KIND_HELLO_SERVER {
                if !self.role_client || self.hello_received {
                    self.error = Some(ProtocolError::UnexpectedRecord);
                } else if plen != 1 {
                    self.error = Some(ProtocolError::MalformedRecord);
                } else {
                    self.hello_received = true;
                    let id = payload[0];
                    let explicit = anchors_contain(&self.anchors, id);
                    if explicit || (self.default_roots && id == DEFAULT_ROOT_ID) {
                        self.send_buf.push(KIND_FINISH);
                        self.send_buf.push(0);
                        self.finish_sent = true;
                        self.complete = true;
                        proof {
                            assert(old(self).send_buf@.is_prefix_of(self.send_buf@)) by {
                                assert(self.send_buf@.take(old(self).send_buf@.len() as int)
                                    =~= old(self).send_buf@);
                            }
                        }
                    } else {
                        self.error = Some(ProtocolError::BadCertificate);
                    }
                }
            } else if kind == KIND_FINISH {
                if self.role_client || !self.hello_sent {
                    self.error = Some(ProtocolError::UnexpectedRecord);
                } else if plen != 0 {
                    self.error = Some(ProtocolError::MalformedRecord);
                } else {
                    self.finish_received = true;
                    self.complete = true;
                }
            } else if kind == KIND_CLOSE {
                if plen != 0 {
                    self.error = Some(ProtocolError::MalformedRecord);
                } else {
                    self.peer_closed = true;
                }
            } else {
                self.error = Some(ProtocolError::MalformedRecord);
            }
            proof {
                if old(self).complete && data_stream(old(self).recv_buf@) is Some {
                    assert(payload@ == pre.recv_buf@.subrange(2, 2 + plen));
                    assert(stream_or_empty(data_stream(pre.recv_buf@)) == payload@
                        + stream_or_empty(data_stream(self.recv_buf@)));
                }
                if old(self).complete && data_split(old(self).recv_buf@) is Some {
                    assert(payload@ == pre.recv_buf@.subrange(2, 2 + plen));
                    assert(data_split(pre.recv_buf@) matches Some(prh));
                    assert(data_split(self.recv_buf@) matches Some(prt));
                }
                if pre == *old(self) && !old(self).role_client && !old(self).hello_received && old(
                    self).sole_client_hello() {
                    assert(self.recv_buf@ =~= Seq::<u8>::empty());
                    assert(self.send_buf@ =~= old(self).send_buf@ + spec_encode_record(
                        KIND_HELLO_SERVER,
                        seq![old(self).cert_id],
                    ));
                }
                if pre == *old(self) && old(self).role_client && !old(self).hello_received && old(
                    self).sole_server_hello() {
                    assert(payload@ =~= seq![old(self).recv_buf@[2]]);
                    assert(self.recv_buf@ =~= Seq::<u8>::empty());
                    if old(self).spec_cert_trusted(old(self).recv_buf@[2]) {
                        assert(self.send_buf@ =~= old(self).send_buf@ + spec_encode_record(
                            KIND_FINISH,
                            Seq::<u8>::empty(),
                        ));
                    }
                }
                if pre == *old(self) && !old(self).role_client && old(self).hello_sent && old(
                    self).sole_finish() {
                    assert(self.recv_buf@ =~= Seq::<u8>::empty());
                }
                if pre == *old(self) && old(self).sole_close() {
                    assert(self.recv_buf@ =~= Seq::<u8>::empty());
                }
            }
        }
    }

    /// Queue a close-notify record, exactly once; asking again changes
    /// nothing and queues nothing.
    pub fn send_close_notify(&mut self)
        ensures
            old(self).sent_close ==> *final(self) == *old(self),
            !old(self).sent_close ==> {
                &&& final(self).send_buf@ == old(self).send_buf@ + spec_encode_record(
                    KIND_CLOSE,
                    Seq::<u8>::empty(),
                )
                &&& final(self).sent_close
                &&& *final(self) == (Session {
                    send_buf: final(self).send_buf,
                    sent_close: true,
                    ..*old(self)
                })
            },
    {
        if self.sent_close {
            return;
        }
        self.send_buf.push(KIND_CLOSE);
        self.send_buf.push(0);
        self.sent_close = true;
        proof {
            assert(self.send_buf@ =~= old(self).send_buf@ + spec_encode_record(
                KIND_CLOSE,
                Seq::<u8>::empty(),
            ));
        }
    }
}

} // verus!
