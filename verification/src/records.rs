//! The data the protocol stores: addresses, audit records, usage records,
//! and their mathematical models.

use vstd::prelude::*;

verus! {

/// An account identifier, as the host chain presents it: opaque bytes that
/// the protocol stores and returns but never interprets.
#[derive(Debug, PartialEq, Eq)]
pub struct Address {
    /// The raw identifier bytes.
    pub bytes: Vec<u8>,
}

impl View for Address {
    type V = Seq<u8>;

    open spec fn view(&self) -> Seq<u8> {
        self.bytes@
    }
}

impl Address {
    /// Wraps raw identifier bytes.
    pub fn new(bytes: Vec<u8>) -> (a: Address)
        ensures
            a@ == bytes@,
    {
        Address { bytes }
    }

    /// An owned copy of this address.
    pub fn duplicate(&self) -> (a: Address)
        ensures
            a@ == self@,
    {
        Address { bytes: clone_bytes(&self.bytes) }
    }
}

/// The model of one audit entry: what [`MintAuditRecord`] stores, over
/// mathematical sequences.
#[verifier::ext_equal]
pub struct MintRecordModel {
    /// Recipient of the minted tokens.
    pub recipient: Seq<u8>,
    /// Amount minted.
    pub amount: i128,
    /// Price the proof attested to, in 7-decimal fixed point.
    pub price: i128,
    /// Epoch seconds at which the price was fetched.
    pub timestamp: u64,
    /// Commitment to the raw multi-source price dataset.
    pub commitment: Seq<u8>,
    /// Fingerprint of the proof artifact that backed this mint.
    pub fingerprint: Seq<u8>,
    /// Whether the mint was proof-verified.
    pub verified: bool,
}

/// One immutable entry of the mint audit ledger, created exactly once per
/// successful proof-gated mint.
#[derive(Debug)]
pub struct MintAuditRecord {
    /// Recipient of the minted tokens.
    pub recipient: Address,
    /// Amount minted.
    pub amount: i128,
    /// Price the proof attested to, in 7-decimal fixed point.
    pub price: i128,
    /// Epoch seconds at which the price was fetched.
    pub timestamp: u64,
    /// Commitment to the raw multi-source price dataset.
    pub commitment: Vec<u8>,
    /// Fingerprint of the proof artifact that backed this mint.
    pub proof_fingerprint: Vec<u8>,
    /// Whether the mint was proof-verified.
    pub verified: bool,
}

impl View for MintAuditRecord {
    type V = MintRecordModel;

    open spec fn view(&self) -> MintRecordModel {
        MintRecordModel {
            recipient: self.recipient@,
            amount: self.amount,
            price: self.price,
            timestamp: self.timestamp,
            commitment: self.commitment@,
            fingerprint: self.proof_fingerprint@,
            verified: self.verified,
        }
    }
}

impl MintAuditRecord {
    /// An owned copy of this record.
    pub fn duplicate(&self) -> (r: MintAuditRecord)
        ensures
            r@ == self@,
    {
        MintAuditRecord {
            recipient: self.recipient.duplicate(),
            amount: self.amount,
            price: self.price,
            timestamp: self.timestamp,
            commitment: clone_bytes(&self.commitment),
            proof_fingerprint: clone_bytes(&self.proof_fingerprint),
            verified: self.verified,
        }
    }
}

/// The model of one anti-replay entry.
#[verifier::ext_equal]
pub struct UsageModel {
    /// Fingerprint of a consumed proof artifact.
    pub fingerprint: Seq<u8>,
    /// Network time at which it was first consumed.
    pub first_used_at: u64,
}

/// One entry of the anti-replay store: a proof fingerprint and when it was
/// first consumed. Never updated or deleted.
#[derive(Debug)]
pub struct ProofUsageRecord {
    /// Fingerprint of a consumed proof artifact.
    pub fingerprint: Vec<u8>,
    /// Network time at which it was first consumed.
    pub first_used_at: u64,
}

impl View for ProofUsageRecord {
    type V = UsageModel;

    open spec fn view(&self) -> UsageModel {
        UsageModel { fingerprint: self.fingerprint@, first_used_at: self.first_used_at }
    }
}

/// An owned copy of a byte vector, equal to its source element by element.
pub(crate) fn clone_bytes(v: &Vec<u8>) -> (r: Vec<u8>)
    ensures
        r@ == v@,
{
    let r = v.clone();
    proof {
        assert forall|i: int| 0 <= i < v@.len() implies r@[i] == v@[i] by {
            assert(cloned::<u8>(v[i], r[i]));
        }
        assert(r@ =~= v@);
    }
    r
}

/// True when two byte views are equal; decided by comparing lengths and
/// elements.
pub(crate) fn bytes_eq(a: &Vec<u8>, b: &Vec<u8>) -> (r: bool)
    ensures
        r == (a@ == b@),
{
    if a.len() != b.len() {
        return false;
    }
    let n = a.len();
    let mut i: usize = 0;
    while i < n
        invariant
            n == a@.len(),
            n == b@.len(),
            0 <= i <= n,
            forall|k: int| 0 <= k < i ==> a@[k] == b@[k],
        decreases n - i,
    {
        if a[i] != b[i] {
            return false;
        }
        i = i + 1;
    }
    proof {
        assert(a@ =~= b@);
    }
    true
}

} // verus!
