//! Lifecycle management for pooled encrypted transport connections.
//!
//! A generic connection pool hands requests for a target endpoint to a
//! manager that creates new TLS-wrapped connections and validates idle ones
//! before reuse. This crate verifies the manager's decision logic: how a
//! connection-establishment attempt moves through its states, how transport
//! and handshake failures are classified, when an idle connection is judged
//! stale by a non-blocking probe, which certificates a verification policy
//! accepts, and that the adapter handed to callers forwards bytes unchanged
//! and in order. The asynchronous I/O itself (TCP dialing, the TLS engine,
//! stream polling) is left to a thin unverified shell that drives these
//! decisions.

pub mod adapter;
pub mod endpoint;
pub mod errors;
pub mod manager;
pub mod policy;
pub mod recycle;

pub use adapter::LeasedConnection;
pub use endpoint::Endpoint;
pub use endpoint::IpAddress;
pub use endpoint::SocketAddress;
pub use errors::HandshakeFailure;
pub use errors::IoErrorKind;
pub use errors::IoFailure;
pub use errors::PoolError;
pub use manager::CreateAction;
pub use manager::CreateEvent;
pub use manager::CreateState;
pub use manager::TlsConnection;
pub use policy::CertificateEvidence;
pub use policy::NoCertificateVerification;
pub use policy::VerifyMode;
pub use recycle::PROBE_LEN;
pub use recycle::ProbeOutcome;
