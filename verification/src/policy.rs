//! The certificate-verification policy of the TLS engine.
//!
//! Verification is an explicit configuration choice with two modes: strict
//! (validate the peer's certificate chain and hostname against a trust
//! store — the default) and permissive (skip verification entirely, an
//! opt-in hazard for controlled test environments only).

use vstd::prelude::*;

use crate::errors::HandshakeFailure;

verus! {

/// Whether the peer's certificate is validated before a handshake may
/// succeed.
#[derive(Clone, Copy, Debug, PartialEq, Eq, Structural)]
pub enum VerifyMode {
    /// Validate the certificate chain and the hostname. The default.
    Strict,
    /// Accept any certificate. Never a silent default: a configuration
    /// must name it to get it.
    Permissive,
}

impl Default for VerifyMode {
    /// Verification is strict unless a configuration opts out explicitly.
    fn default() -> (r: Self)
        ensures
            r is Strict,
    {
        VerifyMode::Strict
    }
}

/// What the engine's chain validation reports about a presented
/// certificate, reduced to the two judgements the policy reads.
#[derive(Clone, Copy, Debug, PartialEq, Eq, Structural)]
pub struct CertificateEvidence {
    /// The certificate chain validates against the configured trust store.
    pub chain_valid: bool,
    /// The certificate is issued for the hostname being contacted.
    pub hostname_matches: bool,
}

/// When a verification mode accepts a presented certificate: permissive
/// mode accepts everything; strict mode demands a valid chain issued for
/// the hostname in hand.
pub open spec fn cert_accepted(mode: VerifyMode, evidence: CertificateEvidence) -> bool {
    mode is Permissive || (evidence.chain_valid && evidence.hostname_matches)
}

/// Decide whether the handshake may proceed with the presented
/// certificate. Rejection is a certificate rejection, never silence.
pub fn evaluate_server_cert(mode: VerifyMode, evidence: CertificateEvidence) -> (r: Result<
    (),
    HandshakeFailure,
>)
    ensures
        r is Ok <==> cert_accepted(mode, evidence),
        r is Err ==> r == Err::<(), HandshakeFailure>(HandshakeFailure::CertificateRejected),
{
    match mode {
        VerifyMode::Permissive => Ok(()),
        VerifyMode::Strict => {
            if evidence.chain_valid && evidence.hostname_matches {
                Ok(())
            } else {
                Err(HandshakeFailure::CertificateRejected)
            }
        },
    }
}

/// The verifier a permissive configuration installs: it accepts every
/// certificate, whatever the evidence says.
pub struct NoCertificateVerification {}

impl NoCertificateVerification {
    /// Accept unconditionally: the permissive decision, and nothing else.
    pub fn verify_server_cert(&self, evidence: CertificateEvidence) -> (r: Result<
        (),
        HandshakeFailure,
    >)
        ensures
            r is Ok,
            r is Ok <==> cert_accepted(VerifyMode::Permissive, evidence),
    {
        Ok(())
    }
}

/// A certificate for a different hostname is rejected in strict mode and
/// accepted in permissive mode, whatever else the evidence says.
pub proof fn lemma_hostname_mismatch_strict_vs_permissive(evidence: CertificateEvidence)
    requires
        !evidence.hostname_matches,
    ensures
        !cert_accepted(VerifyMode::Strict, evidence),
        cert_accepted(VerifyMode::Permissive, evidence),
{
}

} // verus!
