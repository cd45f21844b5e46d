//! Unit tests of the protocol's components: screening, validation, the
//! anti-replay store and the audit ledger.

use proof_gated_mint::errors::Error;
use proof_gated_mint::ledger::MintAuditLedger;
use proof_gated_mint::outcomes::AuthOutcome;
use proof_gated_mint::outcomes::VerifierOutcome;
use proof_gated_mint::records::Address;
use proof_gated_mint::records::MintAuditRecord;
use proof_gated_mint::store::ProofRecordStore;
use proof_gated_mint::validator::check_binding;
use proof_gated_mint::validator::check_freshness;
use proof_gated_mint::validator::screen;
use proof_gated_mint::validator::validate;

fn record(amount: i128, verified: bool) -> MintAuditRecord {
    MintAuditRecord {
        recipient: Address::new(vec![1]),
        amount,
        price: 3005000000,
        timestamp: 1700000000,
        commitment: vec![5, 5],
        proof_fingerprint: vec![0; 32],
        verified,
    }
}

#[test]
fn screen_checks_auth_then_amount() {
    assert_eq!(screen(AuthOutcome::Denied, 1000), Err(Error::Unauthorized));
    assert_eq!(screen(AuthOutcome::Denied, 0), Err(Error::Unauthorized));
    assert_eq!(screen(AuthOutcome::Granted, 0), Err(Error::InvalidAmount));
    assert_eq!(screen(AuthOutcome::Granted, -7), Err(Error::InvalidAmount));
    assert_eq!(screen(AuthOutcome::Granted, 1), Ok(()));
}

#[test]
fn binding_requires_exact_words() {
    let t: u64 = 1700000000;
    let inputs = vec![3005000000u32, 0, t as u32, 0];
    assert!(check_binding(&inputs, 3005000000, t));
    assert!(!check_binding(&inputs, 3005000001, t));
    assert!(!check_binding(&inputs, 3005000000, t + 1));
    // A price with a high word.
    let price = (7u64 << 32) | 11;
    let inputs = vec![11u32, 7, t as u32, 0];
    assert!(check_binding(&inputs, price as i128, t));
    assert!(!check_binding(&inputs, 11, t));
}

#[test]
fn freshness_is_a_sharp_bound() {
    assert!(check_freshness(100, 100, 0));
    assert!(check_freshness(100, 160, 60));
    assert!(!check_freshness(100, 161, 60));
    // A claim from the future is not stale.
    assert!(check_freshness(200, 100, 0));
}

#[test]
fn validation_order_and_verdicts() {
    let t: u64 = 1700000000;
    let good = vec![3005000000u32, 0, t as u32, 0];
    let bad = vec![1u32, 0, t as u32, 0];
    // The verifier's own failure dominates everything else.
    assert_eq!(
        validate(VerifierOutcome::Errored, &bad, 3005000000, t, t, 60),
        Err(Error::ExternalVerifierError)
    );
    assert_eq!(
        validate(VerifierOutcome::Rejected, &good, 3005000000, t, t, 60),
        Err(Error::ProofVerificationFailed)
    );
    assert_eq!(
        validate(VerifierOutcome::Accepted, &bad, 3005000000, t, t, 60),
        Err(Error::PublicInputMismatch)
    );
    assert_eq!(
        validate(VerifierOutcome::Accepted, &good, 3005000000, t, t + 61, 60),
        Err(Error::ProofExpired)
    );
    assert_eq!(validate(VerifierOutcome::Accepted, &good, 3005000000, t, t, 60), Ok(()));
}

#[test]
fn store_marks_each_fingerprint_once() {
    let mut s = ProofRecordStore::new();
    let fp_a = vec![1u8; 32];
    let fp_b = vec![2u8; 32];
    assert!(!s.is_used(&fp_a));
    assert_eq!(s.usage_timestamp(&fp_a), None);

    assert_eq!(s.mark_used(&fp_a, 500), Ok(()));
    assert!(s.is_used(&fp_a));
    assert!(!s.is_used(&fp_b));
    assert_eq!(s.usage_timestamp(&fp_a), Some(500));

    // A second mark fails and the first-use time survives.
    assert_eq!(s.mark_used(&fp_a, 900), Err(Error::ProofAlreadyUsed));
    assert_eq!(s.usage_timestamp(&fp_a), Some(500));

    assert_eq!(s.mark_used(&fp_b, 900), Ok(()));
    assert_eq!(s.usage_timestamp(&fp_b), Some(900));
}

#[test]
fn ledger_appends_in_order_and_never_lies() {
    let mut l = MintAuditLedger::new();
    assert_eq!(l.record_count(), 0);
    assert!(l.get(0).is_none());
    assert!(!l.is_verified(0));
    assert_eq!(l.commitment_of(0), None);

    let id0 = l.append(record(10, true));
    let id1 = l.append(record(20, false));
    assert_eq!(id0, 0);
    assert_eq!(id1, 1);
    assert_eq!(l.record_count(), 2);

    let r0 = l.get(0).unwrap();
    assert_eq!(r0.amount, 10);
    assert_eq!(r0.recipient, Address::new(vec![1]));
    assert_eq!(r0.commitment, vec![5, 5]);
    assert!(l.is_verified(0));
    assert!(!l.is_verified(1));
    assert!(!l.is_verified(2));
    assert_eq!(l.commitment_of(1), Some(vec![5, 5]));
    assert!(l.get(2).is_none());
}

#[test]
fn addresses_and_records_copy_faithfully() {
    let a = Address::new(vec![3, 1, 4]);
    assert_eq!(a.duplicate(), a);
    let r = record(10, true);
    let d = r.duplicate();
    assert_eq!(d.recipient, r.recipient);
    assert_eq!(d.amount, r.amount);
    assert_eq!(d.price, r.price);
    assert_eq!(d.timestamp, r.timestamp);
    assert_eq!(d.commitment, r.commitment);
    assert_eq!(d.proof_fingerprint, r.proof_fingerprint);
    assert_eq!(d.verified, r.verified);
}
