use tls_adapter::error::TlsError;
use tls_adapter::session::{Session, KIND_CLOSE, KIND_DATA};
use tls_adapter::stream::{FlushResult, ReadResult, TlsStream, WriteResult};
use tls_adapter::transport::MemTransport;
use tls_adapter::TlsState;

fn established_session() -> Session {
    let mut s = Session::new_client(Vec::new(), true, false);
    s.hello_received = true;
    s.finish_sent = true;
    s.complete = true;
    s.send_buf = Vec::new();
    s
}

fn established_stream(state: TlsState) -> TlsStream {
    TlsStream::new(established_session(), MemTransport::new(), state)
}

#[test]
fn read_after_read_shutdown_is_eof_without_transport_io() {
    let mut s = established_stream(TlsState::ReadShutdown);
    s.transport.feed_incoming(&[KIND_DATA, 1, 9]);
    match s.read(16) {
        ReadResult::Data(v) => assert!(v.is_empty()),
        _ => panic!("expected end-of-stream"),
    }
    // the transport was not touched: nothing consumed, nothing written
    assert_eq!(s.transport.rx_pos, 0);
    assert!(s.transport.tx.is_empty());
    match s.read(16) {
        ReadResult::Data(v) => assert!(v.is_empty()),
        _ => panic!("expected end-of-stream again"),
    }
}

#[test]
fn read_after_full_shutdown_is_eof() {
    let mut s = established_stream(TlsState::FullyShutdown);
    match s.read(16) {
        ReadResult::Data(v) => assert!(v.is_empty()),
        _ => panic!("expected end-of-stream"),
    }
    assert_eq!(s.transport.rx_pos, 0);
}

#[test]
fn write_after_write_shutdown_fails_without_transport_io() {
    let mut s = established_stream(TlsState::WriteShutdown);
    match s.write(&[1, 2, 3]) {
        WriteResult::Fail(e) => assert_eq!(e, TlsError::WriteClosed),
        _ => panic!("expected failure"),
    }
    assert!(s.transport.tx.is_empty());
    assert!(s.session.send_buf.is_empty());
    // deterministically the same on a second attempt
    match s.write(&[4]) {
        WriteResult::Fail(e) => assert_eq!(e, TlsError::WriteClosed),
        _ => panic!("expected failure again"),
    }
}

#[test]
fn write_after_full_shutdown_fails() {
    let mut s = established_stream(TlsState::FullyShutdown);
    match s.write(&[1]) {
        WriteResult::Fail(e) => assert_eq!(e, TlsError::WriteClosed),
        _ => panic!("expected failure"),
    }
    assert!(s.transport.tx.is_empty());
}

#[test]
fn write_then_read_round_trips_through_the_wire() {
    let mut a = established_stream(TlsState::Stream);
    let mut b = established_stream(TlsState::Stream);
    match a.write(&[112, 105, 110, 103]) {
        WriteResult::Accepted(n) => assert_eq!(n, 4),
        _ => panic!("expected acceptance"),
    }
    assert_eq!(a.flush(), FlushResult::Done);
    let wire = a.transport.take_outgoing();
    assert_eq!(wire, vec![KIND_DATA, 4, 112, 105, 110, 103]);
    b.transport.feed_incoming(&wire);
    match b.read(16) {
        ReadResult::Data(v) => assert_eq!(v, vec![112, 105, 110, 103]),
        _ => panic!("expected data"),
    }
}

#[test]
fn shutdown_twice_sends_close_notify_only_once() {
    let mut s = established_stream(TlsState::Stream);
    assert_eq!(s.shutdown(), FlushResult::Done);
    assert_eq!(s.state, TlsState::WriteShutdown);
    assert_eq!(s.shutdown(), FlushResult::Done);
    assert_eq!(s.state, TlsState::WriteShutdown);
    let wire = s.transport.take_outgoing();
    assert_eq!(wire, vec![KIND_CLOSE, 0]);
    // reads stay allowed after a write-side shutdown
    s.transport.feed_incoming(&[KIND_DATA, 1, 42]);
    match s.read(4) {
        ReadResult::Data(v) => assert_eq!(v, vec![42]),
        _ => panic!("expected data"),
    }
}

#[test]
fn peer_close_notify_shuts_the_read_direction() {
    let mut s = established_stream(TlsState::Stream);
    s.transport.feed_incoming(&[KIND_CLOSE, 0]);
    match s.read(8) {
        ReadResult::Data(v) => assert!(v.is_empty()),
        _ => panic!("expected end-of-stream"),
    }
    assert_eq!(s.state, TlsState::ReadShutdown);
    let pos = s.transport.rx_pos;
    match s.read(8) {
        ReadResult::Data(v) => assert!(v.is_empty()),
        _ => panic!("expected end-of-stream again"),
    }
    assert_eq!(s.transport.rx_pos, pos);
}

#[test]
fn transport_read_fault_poisons_the_read_direction() {
    let mut s = established_stream(TlsState::Stream);
    s.transport.set_read_fault(Some(5));
    match s.read(8) {
        ReadResult::Fail(e) => assert_eq!(e, TlsError::Transport(5)),
        _ => panic!("expected failure"),
    }
    // even after the transport recovers, the direction stays poisoned
    s.transport.set_read_fault(None);
    match s.read(8) {
        ReadResult::Fail(e) => assert_eq!(e, TlsError::Transport(5)),
        _ => panic!("expected the same failure"),
    }
}

#[test]
fn transport_write_fault_poisons_the_write_direction() {
    let mut s = established_stream(TlsState::Stream);
    s.transport.set_write_fault(Some(6));
    match s.write(&[1]) {
        WriteResult::Fail(e) => assert_eq!(e, TlsError::Transport(6)),
        _ => panic!("expected failure"),
    }
    s.transport.set_write_fault(None);
    match s.write(&[2]) {
        WriteResult::Fail(e) => assert_eq!(e, TlsError::Transport(6)),
        _ => panic!("expected the same failure"),
    }
}

#[test]
fn blocked_transport_keeps_bytes_queued_until_flush() {
    let mut s = established_stream(TlsState::Stream);
    s.transport.set_write_blocked(true);
    match s.write(&[1, 2]) {
        WriteResult::Accepted(n) => assert_eq!(n, 2),
        _ => panic!("expected acceptance"),
    }
    assert_eq!(s.flush(), FlushResult::WouldBlock);
    assert!(s.transport.tx.is_empty());
    assert_eq!(s.session.send_buf, vec![KIND_DATA, 2, 1, 2]);
    s.transport.set_write_blocked(false);
    assert_eq!(s.flush(), FlushResult::Done);
    assert_eq!(s.transport.take_outgoing(), vec![KIND_DATA, 2, 1, 2]);
}

#[test]
fn flush_moves_one_bounded_chunk_per_call() {
    let mut s = established_stream(TlsState::Stream);
    s.transport.set_max_chunk(2);
    match s.write(&[1, 2, 3]) {
        WriteResult::Accepted(n) => assert_eq!(n, 3),
        _ => panic!("expected acceptance"),
    }
    // the record is 5 bytes; the write itself flushed one 2-byte chunk, and
    // each flush hands over at most 2 more
    assert_eq!(s.flush(), FlushResult::WouldBlock);
    assert_eq!(s.transport.tx, vec![KIND_DATA, 3, 1, 2]);
    assert_eq!(s.flush(), FlushResult::Done);
    assert_eq!(s.transport.take_outgoing(), vec![KIND_DATA, 3, 1, 2, 3]);
}

#[test]
fn early_data_is_buffered_and_framed() {
    let session = Session::new_client(Vec::new(), true, true);
    let mut s = TlsStream::new(session, MemTransport::new(), TlsState::EarlyData);
    match s.write(&[104, 105]) {
        WriteResult::Accepted(n) => assert_eq!(n, 2),
        _ => panic!("expected acceptance"),
    }
    assert_eq!(s.early_buf, vec![104, 105]);
    assert_eq!(s.early_cursor, 2);
}

#[test]
fn into_parts_returns_the_components() {
    let s = established_stream(TlsState::Stream);
    let (session, transport, state) = s.into_parts();
    assert!(session.complete);
    assert_eq!(transport.rx_pos, 0);
    assert_eq!(state, TlsState::Stream);
}

#[test]
fn empty_write_is_a_no_op() {
    let mut s = established_stream(TlsState::Stream);
    assert_eq!(s.write(&[]), WriteResult::Accepted(0));
    assert!(s.session.send_buf.is_empty());
}
