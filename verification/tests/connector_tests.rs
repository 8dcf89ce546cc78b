use tls_adapter::connector::{ClientConfig, ServerConfig, TlsAcceptor, TlsConnector};
use tls_adapter::error::{ProtocolError, TlsError};
use tls_adapter::transport::MemTransport;
use tls_adapter::TlsState;

#[test]
fn invalid_domain_is_rejected_before_any_io() {
    let conn = TlsConnector::new();
    let t = MemTransport::new();
    match conn.connect("not a valid domain!", t) {
        Err(e) => assert_eq!(e, TlsError::InvalidDomain),
        Ok(_) => panic!("a name with spaces is not a DNS name"),
    }
    let t2 = MemTransport::new();
    assert!(matches!(conn.connect("", t2), Err(TlsError::InvalidDomain)));
}

#[test]
fn valid_domain_is_accepted() {
    let conn = TlsConnector::new();
    assert!(conn.connect("example.com", MemTransport::new()).is_ok());
    assert!(conn.connect("a.b-c.example", MemTransport::new()).is_ok());
}

#[test]
fn default_connector_trusts_embedded_roots_only() {
    let conn = TlsConnector::default();
    assert!(conn.inner.anchors.is_empty());
    assert!(conn.inner.default_roots);
    assert!(!conn.inner.enable_early_data);
    assert!(!conn.early_data);
    let conn2 = TlsConnector::new();
    assert!(conn2.inner.default_roots);
}

#[test]
fn early_data_flag_needs_both_the_connector_and_the_config() {
    let conn = TlsConnector::from(ClientConfig {
        anchors: vec![1],
        default_roots: false,
        enable_early_data: false,
    })
    .early_data(true);
    let c = conn.connect("example.com", MemTransport::new()).unwrap();
    // config does not enable early data, so the stream starts as an
    // ordinary handshaking stream
    assert_eq!(c.inner.inner.as_ref().unwrap().state, TlsState::Stream);
}

#[test]
fn from_wraps_the_given_configurations() {
    let conn = TlsConnector::from(ClientConfig {
        anchors: vec![9, 8],
        default_roots: false,
        enable_early_data: true,
    });
    assert_eq!(conn.inner.anchors, vec![9, 8]);
    assert!(!conn.inner.default_roots);
    assert!(conn.inner.enable_early_data);
    assert!(!conn.early_data);
    let acc = TlsAcceptor::from(ServerConfig { cert_id: 4 });
    assert_eq!(acc.inner.cert_id, 4);
}

#[test]
fn connect_with_customizes_the_session_before_the_handshake() {
    let conn = TlsConnector::from(ClientConfig {
        anchors: vec![5],
        default_roots: false,
        enable_early_data: false,
    });
    let c = conn
        .connect_with("example.com", MemTransport::new(), |mut s| {
            s.early_accept = true;
            s
        })
        .unwrap();
    assert!(c.inner.inner.as_ref().unwrap().session.early_accept);
}

#[test]
fn accept_with_customizes_the_session_before_the_handshake() {
    let acc = TlsAcceptor::from(ServerConfig { cert_id: 4 });
    let a = acc.accept_with(MemTransport::new(), |mut s| {
        s.early_accept = true;
        s
    });
    assert!(a.inner.inner.as_ref().unwrap().session.early_accept);
}

#[test]
fn error_descriptions_distinguish_the_kinds() {
    assert_eq!(TlsError::InvalidDomain.describe(), "invalid domain");
    assert_eq!(TlsError::Transport(3).describe(), "transport error");
    assert_eq!(TlsError::Protocol(ProtocolError::BadCertificate).describe(), "bad certificate");
    assert_eq!(TlsError::Protocol(ProtocolError::MalformedRecord).describe(), "malformed record");
    assert_eq!(
        TlsError::Protocol(ProtocolError::UnexpectedRecord).describe(),
        "unexpected record"
    );
    assert_eq!(TlsError::WriteClosed.describe(), "stream closed for writing");
}
