//! Answers of the external collaborators.
//!
//! The protocol core decides; the host performs. Admin authorization, the
//! proof-system verifier, the fungible token ledger and the network clock all
//! live outside this crate. Their answers for one request are gathered in
//! [`CollaboratorOutcomes`], and the orchestrator's contract states what it
//! does for every possible combination of them.

use vstd::prelude::*;

verus! {

/// What the admin-authorization collaborator said about the caller.
#[derive(Clone, Copy, Debug, PartialEq, Eq, Structural)]
pub enum AuthOutcome {
    /// The caller holds admin rights.
    Granted,
    /// The caller does not hold admin rights.
    Denied,
}

/// What the external proof-system verifier said about the proof artifact.
/// It mirrors the collaborator's `Result<bool, VerifierError>`: a definitive
/// yes, a definitive no, or a failure to decide at all.
#[derive(Clone, Copy, Debug, PartialEq, Eq, Structural)]
pub enum VerifierOutcome {
    /// The verifier returned `true`: the proof is structurally and
    /// cryptographically valid.
    Accepted,
    /// The verifier returned `false`: the proof is invalid.
    Rejected,
    /// The verifier itself erred (malformed input, internal fault) and gave
    /// no verdict.
    Errored,
}

/// What the external fungible token ledger said when asked to mint.
#[derive(Clone, Copy, Debug, PartialEq, Eq, Structural)]
pub enum LedgerOutcome {
    /// The ledger minted the tokens.
    Minted,
    /// The ledger refused (supply cap, paused state, revoked authorization).
    Refused,
}

/// The answers of all collaborators for one mint request, plus the network
/// time at which the request runs.
#[derive(Clone, Copy, Debug, PartialEq, Eq, Structural)]
pub struct CollaboratorOutcomes {
    /// Admin-authorization check for the caller.
    pub auth: AuthOutcome,
    /// Verdict of the external proof verifier on the submitted artifact.
    pub verifier: VerifierOutcome,
    /// Whether the external ledger mint primitive succeeded.
    pub ledger_mint: LedgerOutcome,
    /// Current network time in epoch seconds.
    pub now: u64,
}

} // verus!
