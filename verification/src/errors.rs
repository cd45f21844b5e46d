//! The failure taxonomy of the proof-gated mint protocol.

use vstd::prelude::*;

verus! {

/// Every way a proof-gated mint can fail. Each failure aborts the whole
/// request with no durable side effect; the kind tells the caller what to do
/// next.
#[derive(Clone, Copy, Debug, PartialEq, Eq, Structural)]
pub enum Error {
    /// The caller does not hold admin rights.
    Unauthorized,
    /// The requested mint amount is zero or negative.
    InvalidAmount,
    /// The external verifier judged the proof invalid.
    ProofVerificationFailed,
    /// The proof's declared public outputs disagree with the submitted
    /// price or timestamp.
    PublicInputMismatch,
    /// The external verifier itself failed; the proof was neither accepted
    /// nor rejected, and the caller may retry.
    ExternalVerifierError,
    /// The proof's fingerprint was already consumed by an earlier mint.
    ProofAlreadyUsed,
    /// The claimed price timestamp is older than the configured maximum age.
    ProofExpired,
    /// The external token ledger refused to mint.
    LedgerMintFailed,
}

} // verus!
