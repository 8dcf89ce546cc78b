use tls_adapter::error::ProtocolError;
use tls_adapter::session::{Session, KIND_CLOSE, KIND_DATA};
use tls_adapter::transport::MemTransport;

fn established_client() -> Session {
    let mut s = Session::new_client(Vec::new(), true, false);
    s.hello_received = true;
    s.finish_sent = true;
    s.complete = true;
    s.send_buf = Vec::new();
    s
}

#[test]
fn write_plaintext_frames_one_data_record() {
    let mut s = established_client();
    let n = s.write_plaintext(&[10, 20, 30]);
    assert_eq!(n, 3);
    assert_eq!(s.send_buf, vec![KIND_DATA, 3, 10, 20, 30]);
}

#[test]
fn write_plaintext_caps_one_record_at_255() {
    let mut s = established_client();
    let big = vec![7u8; 600];
    let n = s.write_plaintext(&big);
    assert_eq!(n, 255);
    assert_eq!(s.send_buf.len(), 257);
    assert_eq!(s.send_buf[0], KIND_DATA);
    assert_eq!(s.send_buf[1], 255);
}

#[test]
fn partial_record_is_kept_until_completed() {
    let mut s = established_client();
    s.feed_ciphertext(&[KIND_DATA, 2, 40]);
    s.process();
    assert_eq!(s.plain_in.len(), 0);
    assert_eq!(s.recv_buf, vec![KIND_DATA, 2, 40]);
    s.feed_ciphertext(&[41]);
    s.process();
    assert_eq!(s.plain_in, vec![40, 41]);
    assert_eq!(s.recv_buf.len(), 0);
}

#[test]
fn complete_records_are_delivered_and_partial_tail_retained() {
    let mut s = established_client();
    s.feed_ciphertext(&[KIND_DATA, 1, 7, KIND_DATA, 2, 8]);
    s.process();
    assert_eq!(s.plain_in, vec![7]);
    assert_eq!(s.recv_buf, vec![KIND_DATA, 2, 8]);
    s.feed_ciphertext(&[9]);
    s.process();
    assert_eq!(s.plain_in, vec![7, 8, 9]);
    assert_eq!(s.recv_buf.len(), 0);
}

#[test]
fn data_records_concatenate_in_order() {
    let mut s = established_client();
    s.feed_ciphertext(&[KIND_DATA, 2, 1, 2, KIND_DATA, 3, 3, 4, 5]);
    s.process();
    assert_eq!(s.plain_in, vec![1, 2, 3, 4, 5]);
    let out = s.read_plaintext(3);
    assert_eq!(out, vec![1, 2, 3]);
    let out2 = s.read_plaintext(10);
    assert_eq!(out2, vec![4, 5]);
}

#[test]
fn close_notify_is_queued_once() {
    let mut s = established_client();
    s.send_close_notify();
    assert_eq!(s.send_buf, vec![KIND_CLOSE, 0]);
    s.send_close_notify();
    assert_eq!(s.send_buf, vec![KIND_CLOSE, 0]);
    assert!(s.sent_close);
}

#[test]
fn close_notify_from_peer_marks_peer_closed() {
    let mut s = established_client();
    s.feed_ciphertext(&[KIND_CLOSE, 0]);
    s.process();
    assert!(s.peer_closed);
}

#[test]
fn unknown_record_kind_poisons_the_engine() {
    let mut s = established_client();
    s.feed_ciphertext(&[99, 0]);
    s.process();
    assert_eq!(s.error, Some(ProtocolError::MalformedRecord));
    // poisoned: further input changes nothing
    s.feed_ciphertext(&[KIND_DATA, 1, 9]);
    s.process();
    assert_eq!(s.plain_in.len(), 0);
}

#[test]
fn data_before_handshake_is_unexpected_for_client() {
    let mut s = Session::new_client(Vec::new(), true, false);
    s.feed_ciphertext(&[KIND_DATA, 1, 9]);
    s.process();
    assert_eq!(s.error, Some(ProtocolError::UnexpectedRecord));
}

#[test]
fn transport_chunks_and_blocks() {
    let mut t = MemTransport::new();
    t.feed_incoming(&[1, 2, 3, 4]);
    t.set_max_chunk(2);
    match t.try_read(10) {
        tls_adapter::IoEvent::Data(v) => assert_eq!(v, vec![1, 2]),
        _ => panic!("expected data"),
    }
    match t.try_read(1) {
        tls_adapter::IoEvent::Data(v) => assert_eq!(v, vec![3]),
        _ => panic!("expected data"),
    }
    match t.try_read(10) {
        tls_adapter::IoEvent::Data(v) => assert_eq!(v, vec![4]),
        _ => panic!("expected data"),
    }
    assert!(matches!(t.try_read(10), tls_adapter::IoEvent::WouldBlock));
    t.close_incoming();
    assert!(matches!(t.try_read(10), tls_adapter::IoEvent::Closed));
}

#[test]
fn transport_write_respects_blocking_script() {
    let mut t = MemTransport::new();
    t.set_write_blocked(true);
    assert!(matches!(t.try_write(&[9]), tls_adapter::WriteEvent::WouldBlock));
    assert_eq!(t.tx.len(), 0);
    t.set_write_blocked(false);
    assert!(matches!(t.try_write(&[9, 8]), tls_adapter::WriteEvent::Accepted(2)));
    assert_eq!(t.take_outgoing(), vec![9, 8]);
    assert_eq!(t.tx.len(), 0);
}
