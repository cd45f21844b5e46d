//! A proof-gated mint protocol with an anti-replay audit ledger.
//!
//! Supply changes of the token are gated by an offline-computed zero-knowledge
//! proof. This crate holds the verified core of that gate: the validator that
//! binds a proof's public inputs to the caller's claimed price and timestamp,
//! the store that rejects replayed proof artifacts, the append-only audit
//! ledger of successful mints, and the orchestrator that sequences them as one
//! atomic step. The external collaborators — the admin-authorization check,
//! the proof-system verifier, the fungible token ledger and the network time
//! source — answer through [`outcomes::CollaboratorOutcomes`]; the orchestrator
//! is verified to act correctly on every answer they can give.

pub mod errors;
pub mod hashing;
pub mod laws;
pub mod ledger;
pub mod outcomes;
pub mod records;
pub mod store;
pub mod token;
pub mod validator;
