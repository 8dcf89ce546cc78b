use tls_adapter::connector::{Accept, ClientConfig, Connect, ServerConfig, TlsAcceptor, TlsConnector};
use tls_adapter::error::{ProtocolError, TlsError};
use tls_adapter::handshake::HandshakePoll;
use tls_adapter::stream::{ReadResult, TlsStream, WriteResult};
use tls_adapter::transport::MemTransport;
use tls_adapter::TlsState;

fn connector(anchors: Vec<u8>, default_roots: bool) -> TlsConnector {
    TlsConnector::from(ClientConfig { anchors, default_roots, enable_early_data: false })
}

fn ferry(a: &mut MemTransport, b: &mut MemTransport) {
    let out = a.take_outgoing();
    if !out.is_empty() {
        b.feed_incoming(&out);
    }
    let back = b.take_outgoing();
    if !back.is_empty() {
        a.feed_incoming(&back);
    }
}

fn client_transport<'x>(
    c: &'x mut Connect,
    cs: &'x mut Option<Result<TlsStream, TlsError>>,
) -> Option<&'x mut MemTransport> {
    match cs.as_mut() {
        Some(Ok(s)) => Some(&mut s.transport),
        Some(Err(_)) => None,
        None => c.inner.inner.as_mut().map(|s| &mut s.transport),
    }
}

fn server_transport<'x>(
    a: &'x mut Accept,
    ss: &'x mut Option<Result<TlsStream, TlsError>>,
) -> Option<&'x mut MemTransport> {
    match ss.as_mut() {
        Some(Ok(s)) => Some(&mut s.transport),
        Some(Err(_)) => None,
        None => a.inner.inner.as_mut().map(|s| &mut s.transport),
    }
}

fn run_handshake(
    c: &mut Connect,
    a: &mut Accept,
    rounds: usize,
) -> (Option<Result<TlsStream, TlsError>>, Option<Result<TlsStream, TlsError>>) {
    let mut cs: Option<Result<TlsStream, TlsError>> = None;
    let mut ss: Option<Result<TlsStream, TlsError>> = None;
    for _ in 0..rounds {
        if cs.is_none() && c.inner.inner.is_some() {
            match c.poll() {
                HandshakePoll::Ready(s) => cs = Some(Ok(s)),
                HandshakePoll::Pending => {},
                HandshakePoll::Failed(e) => cs = Some(Err(e)),
            }
        }
        if ss.is_none() && a.inner.inner.is_some() {
            match a.poll() {
                HandshakePoll::Ready(s) => ss = Some(Ok(s)),
                HandshakePoll::Pending => {},
                HandshakePoll::Failed(e) => ss = Some(Err(e)),
            }
        }
        if let Some(Ok(s)) = cs.as_mut() {
            let _ = s.flush();
        }
        if let Some(Ok(s)) = ss.as_mut() {
            let _ = s.flush();
        }
        {
            let ct = client_transport(c, &mut cs);
            if let Some(ct) = ct {
                let st = server_transport(a, &mut ss);
                if let Some(st) = st {
                    ferry(ct, st);
                }
            }
        }
        if cs.is_some() && ss.is_some() {
            break;
        }
    }
    (cs, ss)
}

fn send_all(from: &mut TlsStream, to: &mut TlsStream, data: &[u8]) -> Vec<u8> {
    let mut sent: usize = 0;
    let mut received: Vec<u8> = Vec::new();
    for _ in 0..1000 {
        if sent < data.len() {
            match from.write(&data[sent..]) {
                WriteResult::Accepted(n) => sent += n,
                WriteResult::WouldBlock => {},
                WriteResult::Fail(e) => panic!("write failed: {:?}", e),
            }
        }
        let _ = from.flush();
        ferry(&mut from.transport, &mut to.transport);
        match to.read(65536) {
            ReadResult::Data(v) => received.extend_from_slice(&v),
            ReadResult::WouldBlock => {},
            ReadResult::Fail(e) => panic!("read failed: {:?}", e),
        }
        if sent == data.len() && received.len() == data.len() {
            break;
        }
    }
    received
}

#[test]
fn matching_configurations_establish_and_round_trip_ping() {
    let conn = connector(vec![7], false);
    let acceptor = TlsAcceptor::from(ServerConfig { cert_id: 7 });
    let mut c = conn.connect("example.com", MemTransport::new()).expect("valid domain");
    let mut a = acceptor.accept(MemTransport::new());
    let (cs, ss) = run_handshake(&mut c, &mut a, 50);
    let mut client = cs.expect("client resolved").expect("client established");
    let mut server = ss.expect("server resolved").expect("server established");
    let got = send_all(&mut client, &mut server, b"ping");
    assert_eq!(got, b"ping".to_vec());
    let back = send_all(&mut server, &mut client, b"pong");
    assert_eq!(back, b"pong".to_vec());
}

#[test]
fn long_transfer_arrives_identical_and_in_order() {
    let conn = connector(vec![1], false);
    let acceptor = TlsAcceptor::from(ServerConfig { cert_id: 1 });
    let mut c = conn.connect("example.com", MemTransport::new()).expect("valid domain");
    let mut a = acceptor.accept(MemTransport::new());
    let (cs, ss) = run_handshake(&mut c, &mut a, 50);
    let mut client = cs.unwrap().unwrap();
    let mut server = ss.unwrap().unwrap();
    let data: Vec<u8> = (0..1200u32).map(|i| (i % 251) as u8).collect();
    let got = send_all(&mut client, &mut server, &data);
    assert_eq!(got, data);
}

#[test]
fn one_byte_transport_chunks_still_complete_the_handshake() {
    let conn = connector(vec![3], false);
    let acceptor = TlsAcceptor::from(ServerConfig { cert_id: 3 });
    let mut ct = MemTransport::new();
    ct.set_max_chunk(1);
    let mut st = MemTransport::new();
    st.set_max_chunk(1);
    let mut c = conn.connect("example.com", ct).expect("valid domain");
    let mut a = acceptor.accept(st);
    let (cs, ss) = run_handshake(&mut c, &mut a, 300);
    let mut client = cs.expect("client resolved").expect("client established");
    let mut server = ss.expect("server resolved").expect("server established");
    let got = send_all(&mut client, &mut server, b"ping");
    assert_eq!(got, b"ping".to_vec());
}

#[test]
fn untrusted_certificate_fails_with_protocol_error_and_no_plaintext() {
    let conn = connector(vec![7], false);
    let acceptor = TlsAcceptor::from(ServerConfig { cert_id: 9 });
    let mut c = conn.connect("example.com", MemTransport::new()).expect("valid domain");
    let mut a = acceptor.accept(MemTransport::new());
    let (cs, ss) = run_handshake(&mut c, &mut a, 50);
    match cs {
        Some(Err(e)) => assert_eq!(e, TlsError::Protocol(ProtocolError::BadCertificate)),
        _ => panic!("client should fail with a protocol error"),
    }
    // the server never resolves and no plaintext was ever exchanged
    assert!(ss.is_none());
    let server_side = a.inner.inner.as_ref().expect("server still pending");
    assert!(server_side.session.plain_in.is_empty());
}

#[test]
fn embedded_default_roots_cover_the_default_identifier() {
    let conn = connector(Vec::new(), true);
    let acceptor = TlsAcceptor::from(ServerConfig { cert_id: 0 });
    let mut c = conn.connect("example.com", MemTransport::new()).expect("valid domain");
    let mut a = acceptor.accept(MemTransport::new());
    let (cs, ss) = run_handshake(&mut c, &mut a, 50);
    assert!(matches!(cs, Some(Ok(_))));
    assert!(matches!(ss, Some(Ok(_))));
}

#[test]
fn transport_fault_during_handshake_fails_with_that_code() {
    let conn = connector(vec![7], false);
    let mut t = MemTransport::new();
    t.set_read_fault(Some(9));
    t.set_write_blocked(true);
    let mut c = conn.connect("example.com", t).expect("valid domain");
    match c.poll() {
        HandshakePoll::Failed(e) => assert_eq!(e, TlsError::Transport(9)),
        _ => panic!("the faulted transport must surface immediately"),
    }
}

#[test]
fn dropping_a_pending_connect_is_safe() {
    let conn = connector(vec![7], false);
    let mut c = conn.connect("example.com", MemTransport::new()).expect("valid domain");
    match c.poll() {
        HandshakePoll::Pending => {},
        _ => panic!("nothing to talk to yet, so the handshake must be pending"),
    }
    // close the transport underneath, then drop the suspension point
    if let Some(s) = c.inner.inner.as_mut() {
        s.transport.close();
    }
    drop(c);
}

#[test]
fn early_data_stream_resolves_to_ordinary_stream_state() {
    let conn = TlsConnector::from(ClientConfig {
        anchors: vec![2],
        default_roots: false,
        enable_early_data: true,
    })
    .early_data(true);
    let acceptor = TlsAcceptor::from(ServerConfig { cert_id: 2 });
    let mut c = conn.connect("example.com", MemTransport::new()).expect("valid domain");
    assert_eq!(c.inner.inner.as_ref().unwrap().state, TlsState::EarlyData);
    let mut a = acceptor.accept(MemTransport::new());
    let (cs, ss) = run_handshake(&mut c, &mut a, 50);
    let client = cs.unwrap().unwrap();
    assert_eq!(client.state, TlsState::Stream);
    assert!(client.early_buf.is_empty());
    assert!(matches!(ss, Some(Ok(_))));
}
