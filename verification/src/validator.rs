//! The proof validator: screens a request, propagates the external
//! verifier's verdict, binds the proof's public inputs to the caller's
//! claimed price and timestamp, and enforces the freshness bound.
//!
//! Binding policy: the circuit declares its outputs as unsigned 32-bit
//! words. Words 0 and 1 are the low and high halves of the attested price,
//! words 2 and 3 the low and high halves of the attested timestamp. A claim
//! whose price does not fit in an unsigned 64-bit value cannot be attested
//! and is rejected as a mismatch.

use vstd::prelude::*;

use crate::errors::Error;
use crate::outcomes::AuthOutcome;
use crate::outcomes::VerifierOutcome;

verus! {

/// The value of one 64-bit quantity encoded as a low and a high 32-bit word.
pub open spec fn word_pair_value(lo: u32, hi: u32) -> int {
    lo + hi * 0x1_0000_0000
}

/// True when the public inputs attest exactly the submitted price and
/// timestamp under the binding policy of this module.
pub open spec fn inputs_bind_claim(inputs: Seq<u32>, price: i128, timestamp: u64) -> bool {
    &&& inputs.len() >= 4
    &&& 0 <= price <= u64::MAX
    &&& word_pair_value(inputs[0], inputs[1]) == price
    &&& word_pair_value(inputs[2], inputs[3]) == timestamp
}

/// True when a claim fetched at `timestamp` is still acceptable at `now`
/// under the configured maximum age. A timestamp at or ahead of `now` is
/// acceptable; an older one only within `max_age` seconds.
pub open spec fn claim_fresh(timestamp: u64, now: u64, max_age: u64) -> bool {
    now - timestamp <= max_age
}

/// What the screening step answers: the cheap rejections that come before
/// any proof work.
pub open spec fn screen_verdict(auth: AuthOutcome, amount: i128) -> Result<(), Error> {
    if auth is Denied {
        Err(Error::Unauthorized)
    } else if amount <= 0 {
        Err(Error::InvalidAmount)
    } else {
        Ok(())
    }
}

/// What validation answers for a given verifier verdict, public inputs and
/// claim: the first failure among verifier error, verifier rejection, a
/// binding mismatch and an expired claim, else acceptance.
pub open spec fn validation_verdict(
    verifier: VerifierOutcome,
    inputs: Seq<u32>,
    price: i128,
    timestamp: u64,
    now: u64,
    max_age: u64,
) -> Result<(), Error> {
    if verifier is Errored {
        Err(Error::ExternalVerifierError)
    } else if verifier is Rejected {
        Err(Error::ProofVerificationFailed)
    } else if !inputs_bind_claim(inputs, price, timestamp) {
        Err(Error::PublicInputMismatch)
    } else if !claim_fresh(timestamp, now, max_age) {
        Err(Error::ProofExpired)
    } else {
        Ok(())
    }
}

/// The cheap checks that precede any proof work: the caller must hold admin
/// rights and the amount must be strictly positive. Takes no proof material
/// at all, so the verifier is observably not consulted here.
pub fn screen(auth: AuthOutcome, amount: i128) -> (r: Result<(), Error>)
    ensures
        r == screen_verdict(auth, amount),
{
    match auth {
        AuthOutcome::Denied => Err(Error::Unauthorized),
        AuthOutcome::Granted => {
            if amount <= 0 {
                Err(Error::InvalidAmount)
            } else {
                Ok(())
            }
        },
    }
}

/// Decides whether the public inputs attest exactly the submitted price and
/// timestamp.
pub fn check_binding(public_inputs: &Vec<u32>, price: i128, timestamp: u64) -> (r: bool)
    ensures
        r == inputs_bind_claim(public_inputs@, price, timestamp),
{
    if public_inputs.len() < 4 {
        return false;
    }
    if price < 0 || price > u64::MAX as i128 {
        return false;
    }
    let price_lo = public_inputs[0] as u64;
    let price_hi = public_inputs[1] as u64;
    let attested_price = price_lo + price_hi * 0x1_0000_0000u64;
    if attested_price != price as u64 {
        return false;
    }
    let ts_lo = public_inputs[2] as u64;
    let ts_hi = public_inputs[3] as u64;
    let attested_ts = ts_lo + ts_hi * 0x1_0000_0000u64;
    attested_ts == timestamp
}

/// Decides whether a claim fetched at `timestamp` is still fresh at `now`.
pub fn check_freshness(timestamp: u64, now: u64, max_age: u64) -> (r: bool)
    ensures
        r == claim_fresh(timestamp, now, max_age),
{
    if now <= timestamp {
        true
    } else {
        now - timestamp <= max_age
    }
}

/// The validation step of the orchestrator: propagates the external
/// verifier's verdict, then checks binding and freshness.
pub fn validate(
    verifier: VerifierOutcome,
    public_inputs: &Vec<u32>,
    price: i128,
    timestamp: u64,
    now: u64,
    max_age: u64,
) -> (r: Result<(), Error>)
    ensures
        r == validation_verdict(verifier, public_inputs@, price, timestamp, now, max_age),
{
    match verifier {
        VerifierOutcome::Errored => Err(Error::ExternalVerifierError),
        VerifierOutcome::Rejected => Err(Error::ProofVerificationFailed),
        VerifierOutcome::Accepted => {
            if !check_binding(public_inputs, price, timestamp) {
                Err(Error::PublicInputMismatch)
            } else if !check_freshness(timestamp, now, max_age) {
                Err(Error::ProofExpired)
            } else {
                Ok(())
            }
        },
    }
}

} // verus!
