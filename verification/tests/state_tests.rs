use tls_adapter::TlsState;

#[test]
fn fresh_stream_is_open_both_ways() {
    let s = TlsState::Stream;
    assert!(s.readable());
    assert!(s.writeable());
    let e = TlsState::EarlyData;
    assert!(e.readable());
    assert!(e.writeable());
}

#[test]
fn shutdown_read_closes_only_read() {
    let mut s = TlsState::Stream;
    s.shutdown_read();
    assert_eq!(s, TlsState::ReadShutdown);
    assert!(!s.readable());
    assert!(s.writeable());
}

#[test]
fn shutdown_write_closes_only_write() {
    let mut s = TlsState::Stream;
    s.shutdown_write();
    assert_eq!(s, TlsState::WriteShutdown);
    assert!(s.readable());
    assert!(!s.writeable());
}

#[test]
fn both_directions_shut_is_fully_shutdown() {
    let mut s = TlsState::Stream;
    s.shutdown_read();
    s.shutdown_write();
    assert_eq!(s, TlsState::FullyShutdown);
    let mut t = TlsState::Stream;
    t.shutdown_write();
    t.shutdown_read();
    assert_eq!(t, TlsState::FullyShutdown);
}

#[test]
fn shutdown_is_idempotent() {
    let mut s = TlsState::Stream;
    s.shutdown_write();
    let once = s;
    s.shutdown_write();
    assert_eq!(s, once);
    let mut t = TlsState::Stream;
    t.shutdown_read();
    let once_r = t;
    t.shutdown_read();
    assert_eq!(t, once_r);
}

#[test]
fn shutdown_never_reopens() {
    let mut s = TlsState::FullyShutdown;
    s.shutdown_read();
    assert_eq!(s, TlsState::FullyShutdown);
    s.shutdown_write();
    assert_eq!(s, TlsState::FullyShutdown);
    assert!(!s.readable());
    assert!(!s.writeable());
}
