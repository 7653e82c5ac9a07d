//! The connection manager: how one connection-establishment attempt moves
//! through its states, and how its failures are classified.
//!
//! Creating a connection suspends twice — at the TCP dial and during the
//! TLS handshake — so the manager's logic is a transition function from the
//! current state and the event the runtime observed to the next state and
//! the action the runtime must take. An unverified shell performs the
//! actions (dialing, handshaking, tearing down) and reports the events
//! back; every decision between them is made, and verified, here.

use vstd::prelude::*;

use crate::endpoint::Endpoint;
use crate::endpoint::SocketAddress;
use crate::errors::HandshakeFailure;
use crate::errors::IoFailure;
use crate::errors::PoolError;
use crate::policy::CertificateEvidence;
use crate::policy::VerifyMode;
use crate::policy::cert_accepted;

verus! {

/// The manager for one target: the endpoint it dials and the
/// certificate-verification mode its TLS engine is configured with.
#[derive(Clone, Debug)]
pub struct TlsConnection {
    pub endpoint: Endpoint,
    pub mode: VerifyMode,
}

impl TlsConnection {
    /// A manager for the given target, verifying certificates strictly.
    pub fn new(host: String, addr: SocketAddress) -> (r: Self)
        ensures
            r.endpoint.host@ == host@,
            r.endpoint.addr == addr,
            r.mode is Strict,
    {
        TlsConnection { endpoint: Endpoint::new(host, addr), mode: VerifyMode::Strict }
    }

    /// A manager for the given target with an explicitly chosen
    /// verification mode.
    pub fn with_mode(host: String, addr: SocketAddress, mode: VerifyMode) -> (r: Self)
        ensures
            r.endpoint.host@ == host@,
            r.endpoint.addr == addr,
            r.mode == mode,
    {
        TlsConnection { endpoint: Endpoint::new(host, addr), mode }
    }
}

/// The states of one connection-establishment attempt.
#[derive(Clone, Copy, Debug, PartialEq, Eq, Structural)]
pub enum CreateState {
    /// Nothing has been opened yet.
    Idle,
    /// The TCP dial is in flight; no transport is owned yet.
    Connecting,
    /// The raw socket is open and owned by the attempt; the TLS
    /// negotiation is in flight over it.
    Handshaking,
    /// The encrypted connection was handed to the pool.
    Established,
    /// The attempt ended without a connection; everything it had opened
    /// has been released.
    Aborted,
}

/// What the runtime reports back to the manager during one attempt.
#[derive(Clone, Debug, PartialEq, Eq)]
pub enum CreateEvent {
    /// The pool asked for a new connection.
    Start,
    /// The TCP dial completed.
    TcpConnected,
    /// The TCP dial failed; no TLS exchange has happened.
    TcpFailed(IoFailure),
    /// The TLS engine completed the handshake.
    TlsEstablished,
    /// The TLS engine gave up: protocol mismatch, or the verification
    /// policy rejected the certificate.
    TlsFailed(HandshakeFailure),
    /// The caller's request was cancelled while the attempt was suspended.
    Cancelled,
}

/// What the runtime must do after a transition.
#[derive(Clone, Debug, PartialEq, Eq)]
pub enum CreateAction {
    /// Open a TCP connection to the endpoint's address.
    Dial,
    /// Hand the raw socket and the endpoint's hostname to the TLS engine.
    BeginHandshake,
    /// Hand the encrypted connection to the pool, ready for use.
    Deliver,
    /// Close whatever transport the attempt holds, then surface the error.
    Fail(PoolError),
    /// Close whatever transport the attempt holds and surface nothing:
    /// the request was cancelled.
    Teardown,
    /// The event does not apply in this state; nothing changes.
    Ignore,
}

/// Which states own a live transport that is not yet the pool's. While
/// dialing, the socket is not yet ours; once delivered, it is the pool's.
pub open spec fn holds_transport(s: CreateState) -> bool {
    s is Handshaking
}

/// Actions that pass the attempt's transport on or shut it down.
pub open spec fn releases_transport(a: CreateAction) -> bool {
    a is Deliver || a is Fail || a is Teardown
}

/// The transition relation of one create attempt. A transport failure
/// becomes a connect error, a negotiation failure a handshake error, and
/// cancellation a silent teardown; an event that does not apply leaves the
/// state alone.
pub open spec fn create_transition_spec(s: CreateState, e: CreateEvent) -> (CreateState,
    CreateAction) {
    match (s, e) {
        (CreateState::Idle, CreateEvent::Start) => (CreateState::Connecting, CreateAction::Dial),
        (CreateState::Connecting, CreateEvent::TcpConnected) => (
            CreateState::Handshaking,
            CreateAction::BeginHandshake,
        ),
        (CreateState::Connecting, CreateEvent::TcpFailed(f)) => (
            CreateState::Aborted,
            CreateAction::Fail(PoolError::Connect(f)),
        ),
        (CreateState::Handshaking, CreateEvent::TlsEstablished) => (
            CreateState::Established,
            CreateAction::Deliver,
        ),
        (CreateState::Handshaking, CreateEvent::TlsFailed(h)) => (
            CreateState::Aborted,
            CreateAction::Fail(PoolError::Handshake(h)),
        ),
        (CreateState::Connecting, CreateEvent::Cancelled) => (
            CreateState::Aborted,
            CreateAction::Teardown,
        ),
        (CreateState::Handshaking, CreateEvent::Cancelled) => (
            CreateState::Aborted,
            CreateAction::Teardown,
        ),
        (other, _) => (other, CreateAction::Ignore),
    }
}

impl TlsConnection {
    /// One step of a create attempt: from the current state and the event
    /// the runtime observed, the next state and the action to take.
    pub fn create_step(&self, s: CreateState, e: CreateEvent) -> (r: (CreateState, CreateAction))
        ensures
            r == create_transition_spec(s, e),
    {
        match (s, e) {
            (CreateState::Idle, CreateEvent::Start) => (
                CreateState::Connecting,
                CreateAction::Dial,
            ),
            (CreateState::Connecting, CreateEvent::TcpConnected) => (
                CreateState::Handshaking,
                CreateAction::BeginHandshake,
            ),
            (CreateState::Connecting, CreateEvent::TcpFailed(f)) => (
                CreateState::Aborted,
                CreateAction::Fail(PoolError::Connect(f)),
            ),
            (CreateState::Handshaking, CreateEvent::TlsEstablished) => (
                CreateState::Established,
                CreateAction::Deliver,
            ),
            (CreateState::Handshaking, CreateEvent::TlsFailed(h)) => (
                CreateState::Aborted,
                CreateAction::Fail(PoolError::Handshake(h)),
            ),
            (CreateState::Connecting, CreateEvent::Cancelled) => (
                CreateState::Aborted,
                CreateAction::Teardown,
            ),
            (CreateState::Handshaking, CreateEvent::Cancelled) => (
                CreateState::Aborted,
                CreateAction::Teardown,
            ),
            (other, _) => (other, CreateAction::Ignore),
        }
    }
}

/// A reachable peer with an acceptable certificate yields a usable
/// connection in one pass: begin, dial, handshake, deliver — three
/// transitions, none repeated, no retry inside the manager.
pub proof fn lemma_create_success_path()
    ensures
        create_transition_spec(CreateState::Idle, CreateEvent::Start) == (
            CreateState::Connecting,
            CreateAction::Dial,
        ),
        create_transition_spec(CreateState::Connecting, CreateEvent::TcpConnected) == (
            CreateState::Handshaking,
            CreateAction::BeginHandshake,
        ),
        create_transition_spec(CreateState::Handshaking, CreateEvent::TlsEstablished) == (
            CreateState::Established,
            CreateAction::Deliver,
        ),
{
}

/// A target unreachable at the transport level makes the attempt fail
/// with a connect error carrying the underlying I/O failure, and leaves
/// nothing open: the aborted attempt holds no transport.
pub proof fn lemma_unreachable_fails_with_connect_error(f: IoFailure)
    ensures
        create_transition_spec(CreateState::Connecting, CreateEvent::TcpFailed(f)) == (
            CreateState::Aborted,
            CreateAction::Fail(PoolError::Connect(f)),
        ),
        !holds_transport(CreateState::Aborted),
{
}

/// No transition leaks a transport: whenever a step leaves a state that
/// owns one for a state that does not, its action either delivers the
/// connection to the pool or shuts the transport down.
pub proof fn lemma_no_transport_leak(s: CreateState, e: CreateEvent)
    ensures
        ({
            let (s2, a) = create_transition_spec(s, e);
            holds_transport(s) && !holds_transport(s2) ==> releases_transport(a)
        }),
{
}

/// No partial connection reaches the pool: a connection is delivered only
/// when the handshake completed, and the attempt is then established.
pub proof fn lemma_no_partial_delivery(s: CreateState, e: CreateEvent)
    ensures
        ({
            let (s2, a) = create_transition_spec(s, e);
            a is Deliver ==> s is Handshaking && e is TlsEstablished && s2 is Established
        }),
{
}

/// The error taxonomy follows the phase exactly: a step surfaces a connect
/// error precisely when the dial failed, a handshake error precisely when
/// the negotiation failed, and never a stale-connection error — staleness
/// belongs to recycling, not to creation.
pub proof fn lemma_errors_follow_the_phase(s: CreateState, e: CreateEvent)
    ensures
        ({
            let a = create_transition_spec(s, e).1;
            (a matches CreateAction::Fail(err) && err is Connect) <==> (s is Connecting
                && e is TcpFailed)
        }),
        ({
            let a = create_transition_spec(s, e).1;
            (a matches CreateAction::Fail(err) && err is Handshake) <==> (s is Handshaking
                && e is TlsFailed)
        }),
        ({
            let a = create_transition_spec(s, e).1;
            a matches CreateAction::Fail(err) ==> !(err is Stale)
        }),
{
}

/// In strict mode a certificate for a different hostname is rejected, and
/// the attempt surfaces a handshake error — never silent success; the same
/// evidence passes in permissive mode.
pub proof fn lemma_certificate_mismatch_fails_handshake(evidence: CertificateEvidence)
    requires
        !evidence.hostname_matches,
    ensures
        !cert_accepted(VerifyMode::Strict, evidence),
        cert_accepted(VerifyMode::Permissive, evidence),
        create_transition_spec(
            CreateState::Handshaking,
            CreateEvent::TlsFailed(HandshakeFailure::CertificateRejected),
        ) == (
            CreateState::Aborted,
            CreateAction::Fail(PoolError::Handshake(HandshakeFailure::CertificateRejected)),
        ),
{
}

} // verus!
