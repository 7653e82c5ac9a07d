//! Recycling an idle connection: the probe decision, and that it answers
//! without waiting.

use pooled_tls::IoErrorKind;
use pooled_tls::IoFailure;
use pooled_tls::IpAddress;
use pooled_tls::PoolError;
use pooled_tls::ProbeOutcome;
use pooled_tls::SocketAddress;
use pooled_tls::TlsConnection;
use pooled_tls::PROBE_LEN;

fn manager() -> TlsConnection {
    let addr = SocketAddress { ip: IpAddress::V4(192, 0, 2, 10), port: 443 };
    TlsConnection::new("example.com".to_string(), addr)
}

#[test]
fn closed_peer_is_stale() {
    // The peer closed its side: the probe completes with zero bytes.
    let r = manager().recycle_step(ProbeOutcome::Data { len: 0 });
    match r {
        Err(PoolError::Stale(f)) => {
            assert_eq!(f.kind, IoErrorKind::UnexpectedEof);
            assert_eq!(f.detail, "connection appeared to be closed (EoF)".to_string());
        }
        other => panic!("expected a stale connection, got {:?}", other),
    }
}

#[test]
fn silent_open_peer_is_live() {
    // The peer is merely silent: nothing readable, connection open.
    let r = manager().recycle_step(ProbeOutcome::WouldBlock);
    assert_eq!(r, Ok(()));
}

#[test]
fn available_data_is_live() {
    let r = manager().recycle_step(ProbeOutcome::Data { len: 3 });
    assert_eq!(r, Ok(()));
    let r2 = manager().recycle_step(ProbeOutcome::Data { len: PROBE_LEN });
    assert_eq!(r2, Ok(()));
}

#[test]
fn probe_error_is_stale_with_the_cause_attached() {
    let reset = IoFailure {
        kind: IoErrorKind::ConnectionReset,
        detail: "connection reset by peer".to_string(),
    };
    let r = manager().recycle_step(ProbeOutcome::Failed { cause: reset.clone() });
    assert_eq!(r, Err(PoolError::Stale(reset)));
}

#[test]
fn recycle_answers_in_the_same_turn_with_nothing_to_read() {
    // A harness observing zero readable bytes and zero errors: the decision
    // is a plain synchronous call and must come back at once, as success.
    let m = manager();
    let mut answers: usize = 0;
    for _ in 0..1000 {
        if m.recycle_step(ProbeOutcome::WouldBlock).is_ok() {
            answers += 1;
        }
    }
    assert_eq!(answers, 1000);
}

#[test]
fn probe_buffer_is_small_and_fixed() {
    assert_eq!(PROBE_LEN, 4);
}
