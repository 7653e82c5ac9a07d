//! Liveness validation of an idle pooled connection before it is handed
//! out again.
//!
//! Recycling probes the connection with one non-blocking read of a small
//! fixed-size buffer and decides from that single observation. The probe
//! itself is the runtime's: it polls the stream once with a no-op waker and
//! reports what it saw. The decision — the part that must never wait — is a
//! total function of the probe's outcome, verified here: a probe that found
//! nothing to read is success in the same scheduling turn, never a
//! suspension.

use vstd::prelude::*;

use crate::errors::IoErrorKind;
use crate::errors::IoFailure;
use crate::errors::PoolError;
use crate::manager::TlsConnection;

verus! {

/// How many bytes the liveness probe reads at most.
pub const PROBE_LEN: usize = 4;

/// What one non-blocking probe read of an idle connection can observe.
#[derive(Clone, Debug, PartialEq, Eq)]
pub enum ProbeOutcome {
    /// Nothing is readable right now; the read would have to wait.
    /// On an idle connection this is the healthy case.
    WouldBlock,
    /// The read completed at once and yielded `len` bytes. Zero bytes from
    /// a completed read is taken as end-of-stream — the peer closed its
    /// side. On some transports this can race with data arriving exactly
    /// at probe time; the classification is deliberate, not a guarantee of
    /// the transport.
    Data { len: usize },
    /// The read reported an I/O failure.
    Failed { cause: IoFailure },
}

/// The diagnostic attached when the probe finds the peer's side closed.
pub open spec fn closed_detail() -> Seq<char> {
    "connection appeared to be closed (EoF)"@
}

/// When a probe outcome lets the connection be reused: nothing readable,
/// or readable data — anything but end-of-stream and failure.
pub open spec fn probe_live(probe: ProbeOutcome) -> bool {
    match probe {
        ProbeOutcome::WouldBlock => true,
        ProbeOutcome::Data { len } => len > 0,
        ProbeOutcome::Failed { .. } => false,
    }
}

impl TlsConnection {
    /// Decide from one probe whether an idle connection may be handed out
    /// again. Success means the pool may reuse it; a stale error means the
    /// pool must discard it, with the precipitating failure preserved.
    pub fn recycle_step(&self, probe: ProbeOutcome) -> (r: Result<(), PoolError>)
        ensures
            r is Ok <==> probe_live(probe),
            probe matches ProbeOutcome::Data { len } && len == 0 ==> (r matches Err(
                PoolError::Stale(f),
            ) && f.kind == IoErrorKind::UnexpectedEof && f.detail@ == closed_detail()),
            probe matches ProbeOutcome::Failed { cause } ==> r == Err::<(), PoolError>(
                PoolError::Stale(cause),
            ),
    {
        match probe {
            ProbeOutcome::WouldBlock => Ok(()),
            ProbeOutcome::Data { len } => {
                if len == 0 {
                    Err(
                        PoolError::Stale(
                            IoFailure {
                                kind: IoErrorKind::UnexpectedEof,
                                detail: "connection appeared to be closed (EoF)".to_owned(),
                            },
                        ),
                    )
                } else {
                    Ok(())
                }
            },
            ProbeOutcome::Failed { cause } => Err(PoolError::Stale(cause)),
        }
    }
}

/// A peer that closed its side is detected, a peer that is merely silent
/// is not: end-of-stream and failures are stale, everything else lets the
/// connection be reused.
pub proof fn lemma_recycle_detects_closed_peer(cause: IoFailure)
    ensures
        !probe_live(ProbeOutcome::Data { len: 0 }),
        !probe_live(ProbeOutcome::Failed { cause }),
        probe_live(ProbeOutcome::WouldBlock),
{
}

/// Recycling never suspends: the decision is a total function of what a
/// single probe observed, and the outcome a suspension would wait on —
/// nothing readable yet, nothing wrong — is already an answer, namely
/// success in the same scheduling turn.
pub proof fn lemma_recycle_never_suspends(probe: ProbeOutcome)
    ensures
        probe_live(probe) <==> (probe is WouldBlock || (probe matches ProbeOutcome::Data { len }
            && len > 0)),
        probe is WouldBlock ==> probe_live(probe),
{
}

} // verus!
