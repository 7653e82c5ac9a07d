//! The error taxonomy of the connection manager.
//!
//! Three failure surfaces are kept apart so that a caller can tell "could
//! not reach the host" from "could not trust the host" from "an idle pooled
//! connection has gone bad": transport failures before any TLS exchange,
//! TLS negotiation failures, and staleness detected while recycling.

use vstd::prelude::*;

verus! {

/// The transport-level failure classes the manager distinguishes.
///
/// These stand for the I/O error conditions a raw socket can report; the
/// unverified shell maps the platform's error codes onto them one for one.
#[derive(Clone, Copy, Debug, PartialEq, Eq, Structural)]
pub enum IoErrorKind {
    /// The peer actively refused the connection.
    ConnectionRefused,
    /// The peer reset an established connection.
    ConnectionReset,
    /// No route to the requested address.
    HostUnreachable,
    /// The attempt gave up after its deadline.
    TimedOut,
    /// The operation would have to wait for the network; nothing is wrong.
    WouldBlock,
    /// The stream ended where more data was required.
    UnexpectedEof,
    /// Any other transport-level failure.
    Other,
}

/// One transport-level failure: its class plus a diagnostic message
/// preserved verbatim from the underlying I/O layer.
#[derive(Clone, Debug, PartialEq, Eq)]
pub struct IoFailure {
    pub kind: IoErrorKind,
    pub detail: String,
}

/// A TLS negotiation failure.
#[derive(Clone, Debug, PartialEq, Eq)]
pub enum HandshakeFailure {
    /// The verification policy rejected the peer's certificate
    /// (wrong hostname, or an untrusted chain).
    CertificateRejected,
    /// The negotiation itself failed (protocol or cipher mismatch),
    /// with the engine's diagnostic preserved.
    ProtocolFailure(String),
}

/// The errors the connection manager surfaces to the pool and its callers.
#[derive(Clone, Debug, PartialEq, Eq)]
pub enum PoolError {
    /// Transport-level failure before any TLS exchange.
    Connect(IoFailure),
    /// TLS negotiation failure.
    Handshake(HandshakeFailure),
    /// An idle connection found unusable while recycling; the precipitating
    /// I/O failure is kept for diagnostics.
    Stale(IoFailure),
}

impl PoolError {
    /// True when the error reports a transport-level connect failure.
    pub fn is_connect(&self) -> (r: bool)
        ensures
            r == (self is Connect),
    {
        match self {
            PoolError::Connect(_) => true,
            _ => false,
        }
    }

    /// True when the error reports a failed TLS negotiation.
    pub fn is_handshake(&self) -> (r: bool)
        ensures
            r == (self is Handshake),
    {
        match self {
            PoolError::Handshake(_) => true,
            _ => false,
        }
    }

    /// True when the error reports a stale pooled connection.
    pub fn is_stale(&self) -> (r: bool)
        ensures
            r == (self is Stale),
    {
        match self {
            PoolError::Stale(_) => true,
            _ => false,
        }
    }
}

} // verus!
