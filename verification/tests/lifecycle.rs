//! The create state machine: the success path, failure classification,
//! cancellation teardown, and events that do not apply.

use pooled_tls::CreateAction;
use pooled_tls::CreateEvent;
use pooled_tls::CreateState;
use pooled_tls::HandshakeFailure;
use pooled_tls::IoErrorKind;
use pooled_tls::IoFailure;
use pooled_tls::IpAddress;
use pooled_tls::PoolError;
use pooled_tls::SocketAddress;
use pooled_tls::TlsConnection;
use pooled_tls::VerifyMode;

fn manager() -> TlsConnection {
    let addr = SocketAddress { ip: IpAddress::V4(192, 0, 2, 10), port: 443 };
    TlsConnection::new("example.com".to_string(), addr)
}

fn refused() -> IoFailure {
    IoFailure {
        kind: IoErrorKind::ConnectionRefused,
        detail: "connection refused".to_string(),
    }
}

#[test]
fn endpoint_keeps_hostname_and_address() {
    let addr = SocketAddress { ip: IpAddress::V4(10, 0, 0, 7), port: 993 };
    let e = pooled_tls::Endpoint::new("mail.example.com".to_string(), addr);
    assert_eq!(e.host, "mail.example.com".to_string());
    assert_eq!(e.addr.ip, IpAddress::V4(10, 0, 0, 7));
    assert_eq!(e.addr.port, 993);
}

#[test]
fn new_manager_is_strict_and_keeps_the_target() {
    let m = manager();
    assert_eq!(m.endpoint.host, "example.com".to_string());
    assert_eq!(m.endpoint.addr.port, 443);
    assert_eq!(m.mode, VerifyMode::Strict);
}

#[test]
fn with_mode_keeps_the_chosen_mode() {
    let addr = SocketAddress { ip: IpAddress::V6(0, 0, 0, 0, 0, 0, 0, 1), port: 8443 };
    let m = TlsConnection::with_mode("localhost".to_string(), addr, VerifyMode::Permissive);
    assert_eq!(m.mode, VerifyMode::Permissive);
    assert_eq!(m.endpoint.addr.ip, IpAddress::V6(0, 0, 0, 0, 0, 0, 0, 1));
}

#[test]
fn create_success_path_takes_three_steps() {
    let m = manager();
    let (s1, a1) = m.create_step(CreateState::Idle, CreateEvent::Start);
    assert_eq!(s1, CreateState::Connecting);
    assert_eq!(a1, CreateAction::Dial);
    let (s2, a2) = m.create_step(s1, CreateEvent::TcpConnected);
    assert_eq!(s2, CreateState::Handshaking);
    assert_eq!(a2, CreateAction::BeginHandshake);
    let (s3, a3) = m.create_step(s2, CreateEvent::TlsEstablished);
    assert_eq!(s3, CreateState::Established);
    assert_eq!(a3, CreateAction::Deliver);
}

#[test]
fn unreachable_target_fails_with_connect_error() {
    let m = manager();
    let (s, a) = m.create_step(CreateState::Connecting, CreateEvent::TcpFailed(refused()));
    assert_eq!(s, CreateState::Aborted);
    assert_eq!(a, CreateAction::Fail(PoolError::Connect(refused())));
}

#[test]
fn connect_error_keeps_the_underlying_failure() {
    let m = manager();
    let timed_out = IoFailure {
        kind: IoErrorKind::TimedOut,
        detail: "connect timed out".to_string(),
    };
    let (_, a) = m.create_step(
        CreateState::Connecting,
        CreateEvent::TcpFailed(timed_out.clone()),
    );
    match a {
        CreateAction::Fail(PoolError::Connect(f)) => {
            assert_eq!(f.kind, IoErrorKind::TimedOut);
            assert_eq!(f.detail, "connect timed out".to_string());
        }
        other => panic!("expected a connect failure, got {:?}", other),
    }
}

#[test]
fn handshake_failure_becomes_handshake_error() {
    let m = manager();
    let bad = HandshakeFailure::ProtocolFailure("no shared cipher".to_string());
    let (s, a) = m.create_step(CreateState::Handshaking, CreateEvent::TlsFailed(bad.clone()));
    assert_eq!(s, CreateState::Aborted);
    assert_eq!(a, CreateAction::Fail(PoolError::Handshake(bad)));
}

#[test]
fn cancellation_tears_partial_state_down() {
    let m = manager();
    let (s, a) = m.create_step(CreateState::Connecting, CreateEvent::Cancelled);
    assert_eq!(s, CreateState::Aborted);
    assert_eq!(a, CreateAction::Teardown);
    let (s2, a2) = m.create_step(CreateState::Handshaking, CreateEvent::Cancelled);
    assert_eq!(s2, CreateState::Aborted);
    assert_eq!(a2, CreateAction::Teardown);
}

#[test]
fn inapplicable_events_change_nothing() {
    let m = manager();
    let (s, a) = m.create_step(CreateState::Idle, CreateEvent::TlsEstablished);
    assert_eq!(s, CreateState::Idle);
    assert_eq!(a, CreateAction::Ignore);
    let (s2, a2) = m.create_step(CreateState::Established, CreateEvent::Start);
    assert_eq!(s2, CreateState::Established);
    assert_eq!(a2, CreateAction::Ignore);
    let (s3, a3) = m.create_step(CreateState::Aborted, CreateEvent::TcpConnected);
    assert_eq!(s3, CreateState::Aborted);
    assert_eq!(a3, CreateAction::Ignore);
}

#[test]
fn error_kind_accessors_tell_the_taxonomy_apart() {
    let connect = PoolError::Connect(refused());
    let handshake = PoolError::Handshake(HandshakeFailure::CertificateRejected);
    let stale = PoolError::Stale(refused());
    assert!(connect.is_connect() && !connect.is_handshake() && !connect.is_stale());
    assert!(handshake.is_handshake() && !handshake.is_connect() && !handshake.is_stale());
    assert!(stale.is_stale() && !stale.is_connect() && !stale.is_handshake());
}
