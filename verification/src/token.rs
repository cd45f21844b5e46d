//! The mint orchestrator: the single state-mutating entry point of the
//! protocol, and the read-only audit queries.
//!
//! [`RWATokenContract`] owns the audit ledger and the anti-replay store and
//! sequences one request as one atomic unit: screening, validation, replay
//! check, external ledger mint, then the paired audit append and replay
//! mark. The whole behaviour — which error comes back on which input, and
//! that a failed request changes nothing — is the transition relation
//! [`mint_transition`].

use vstd::prelude::*;

use crate::errors::Error;
use crate::hashing::keccak256_digest;
use crate::hashing::keccak256_of;
use crate::ledger::MintAuditLedger;
use crate::outcomes::CollaboratorOutcomes;
use crate::outcomes::LedgerOutcome;
use crate::records::Address;
use crate::records::MintAuditRecord;
use crate::records::MintRecordModel;
use crate::records::UsageModel;
use crate::records::clone_bytes;
use crate::store::ProofRecordStore;
use crate::store::fingerprints_distinct;
use crate::store::fp_used;
use crate::validator::screen;
use crate::validator::screen_verdict;
use crate::validator::validate;
use crate::validator::validation_verdict;

verus! {

/// The model of the whole protocol state: the audit records in order of
/// their identifiers, the consumed fingerprints, and the freshness bound.
#[verifier::ext_equal]
pub struct ProtocolModel {
    /// Audit records; the record with identifier `i` sits at position `i`.
    pub records: Seq<MintRecordModel>,
    /// Consumed proof fingerprints with their first-use times.
    pub used: Seq<UsageModel>,
    /// Maximum accepted age of a price claim, in seconds.
    pub max_proof_age: u64,
}

/// One mint request, as the caller submitted it.
#[verifier::ext_equal]
pub struct MintRequestModel {
    /// Recipient of the minted tokens.
    pub to: Seq<u8>,
    /// Amount to mint.
    pub amount: i128,
    /// Claimed price in 7-decimal fixed point.
    pub price: i128,
    /// Claimed epoch-second timestamp of the price.
    pub timestamp: u64,
    /// Commitment to the raw price dataset.
    pub commitment: Seq<u8>,
    /// The opaque proof artifact bytes.
    pub proof: Seq<u8>,
    /// The circuit's declared public outputs.
    pub public_inputs: Seq<u32>,
}

/// The audit record a successful mint of `req` writes.
pub open spec fn minted_record(req: MintRequestModel) -> MintRecordModel {
    MintRecordModel {
        recipient: req.to,
        amount: req.amount,
        price: req.price,
        timestamp: req.timestamp,
        commitment: req.commitment,
        fingerprint: keccak256_of(req.proof),
        verified: true,
    }
}

/// Well-formedness of the protocol state: fingerprints are 32-byte digests,
/// no fingerprint is marked used twice, no fingerprint backs two audit
/// records, every audit record's fingerprint is marked used, and every
/// stored record is proof-verified.
pub open spec fn wf_model(m: ProtocolModel) -> bool {
    &&& m.records.len() <= u32::MAX
    &&& fingerprints_distinct(m.used)
    &&& forall|i: int, j: int|
        0 <= i < j < m.records.len() ==> m.records[i].fingerprint != m.records[j].fingerprint
    &&& forall|i: int|
        0 <= i < m.records.len() ==> fp_used(m.used, #[trigger] m.records[i].fingerprint)
    &&& forall|i: int| 0 <= i < m.records.len() ==> (#[trigger] m.records[i].fingerprint).len() == 32
    &&& forall|i: int| 0 <= i < m.used.len() ==> (#[trigger] m.used[i].fingerprint).len() == 32
    &&& forall|i: int| 0 <= i < m.records.len() ==> (#[trigger] m.records[i]).verified
}

/// The transition relation of one `mint_with_proof` request: given the state
/// before, the request, and the collaborators' answers, it fixes the result
/// and the state after. Checks run in protocol order — screening,
/// validation, replay, external mint — and the first failure aborts the
/// request with the state unchanged. Only a fully successful request appends
/// the audit record and consumes the fingerprint, together.
pub open spec fn mint_transition(
    pre: ProtocolModel,
    req: MintRequestModel,
    ext: CollaboratorOutcomes,
    post: ProtocolModel,
    r: Result<u32, Error>,
) -> bool {
    let fp = keccak256_of(req.proof);
    let screened = screen_verdict(ext.auth, req.amount);
    let validated = validation_verdict(
        ext.verifier,
        req.public_inputs,
        req.price,
        req.timestamp,
        ext.now,
        pre.max_proof_age,
    );
    if screened is Err {
        r == Err::<u32, Error>(screened->Err_0) && post == pre
    } else if validated is Err {
        r == Err::<u32, Error>(validated->Err_0) && post == pre
    } else if fp_used(pre.used, fp) {
        r == Err::<u32, Error>(Error::ProofAlreadyUsed) && post == pre
    } else if ext.ledger_mint is Refused {
        r == Err::<u32, Error>(Error::LedgerMintFailed) && post == pre
    } else {
        &&& r == Ok::<u32, Error>(pre.records.len() as u32)
        &&& post == (ProtocolModel {
            records: pre.records.push(minted_record(req)),
            used: pre.used.push(UsageModel { fingerprint: fp, first_used_at: ext.now }),
            max_proof_age: pre.max_proof_age,
        })
    }
}

/// The proof-gated mint protocol core: audit ledger, anti-replay store and
/// the freshness bound they are configured with.
#[derive(Debug)]
pub struct RWATokenContract {
    ledger: MintAuditLedger,
    store: ProofRecordStore,
    max_proof_age: u64,
}

impl View for RWATokenContract {
    type V = ProtocolModel;

    closed spec fn view(&self) -> ProtocolModel {
        ProtocolModel {
            records: self.ledger@,
            used: self.store@,
            max_proof_age: self.max_proof_age,
        }
    }
}

impl RWATokenContract {
    /// A fresh protocol state with no mints and no consumed fingerprints,
    /// accepting price claims up to `max_proof_age` seconds old.
    pub fn new(max_proof_age: u64) -> (c: RWATokenContract)
        ensures
            c@ == (ProtocolModel {
                records: Seq::<MintRecordModel>::empty(),
                used: Seq::<UsageModel>::empty(),
                max_proof_age,
            }),
            wf_model(c@),
    {
        RWATokenContract {
            ledger: MintAuditLedger::new(),
            store: ProofRecordStore::new(),
            max_proof_age,
        }
    }

    /// The configured maximum age of a price claim, in seconds.
    pub fn max_proof_age(&self) -> (age: u64)
        ensures
            age == self@.max_proof_age,
    {
        self.max_proof_age
    }

    /// How many audit records exist; also the identifier the next successful
    /// mint will receive.
    pub fn record_count(&self) -> (n: u32)
        requires
            wf_model(self@),
        ensures
            n as int == self@.records.len(),
    {
        self.ledger.record_count()
    }

    /// Mints `amount` tokens to `to`, gated by the zero-knowledge proof
    /// `proof_data` with declared outputs `public_inputs`, against the
    /// claimed `price` and `timestamp` and the dataset `commitment`.
    ///
    /// `ext` carries what the external collaborators answered for this
    /// request: the admin-authorization check, the proof verifier's verdict
    /// on `proof_data` and `public_inputs`, the token ledger's response to
    /// the mint, and the network time. The host performs those calls; this
    /// function is verified to turn every combination of their answers into
    /// the behaviour fixed by [`mint_transition`]: the protocol-ordered
    /// error, or a new audit record and a consumed fingerprint written
    /// together, and no state change on any failure.
    pub fn mint_with_proof(
        &mut self,
        env: &soroban_sdk::Env,
        to: Address,
        amount: i128,
        price: i128,
        timestamp: u64,
        commitment: Vec<u8>,
        proof_data: &Vec<u8>,
        public_inputs: &Vec<u32>,
        ext: CollaboratorOutcomes,
    ) -> (r: Result<u32, Error>)
        requires
            wf_model(old(self)@),
            old(self)@.records.len() < u32::MAX,
        ensures
            wf_model(final(self)@),
            mint_transition(
                old(self)@,
                (MintRequestModel {
                    to: to@,
                    amount,
                    price,
                    timestamp,
                    commitment: commitment@,
                    proof: proof_data@,
                    public_inputs: public_inputs@,
                }),
                ext,
                final(self)@,
                r,
            ),
    {
        let ghost req = MintRequestModel {
            to: to@,
            amount,
            price,
            timestamp,
            commitment: commitment@,
            proof: proof_data@,
            public_inputs: public_inputs@,
        };
        if let Err(e) = screen(ext.auth, amount) {
            return Err(e);
        }
        if let Err(e) = validate(
            ext.verifier,
            public_inputs,
            price,
            timestamp,
            ext.now,
            self.max_proof_age,
        ) {
            return Err(e);
        }
        let fingerprint = keccak256_digest(env, proof_data);
        if self.store.is_used(&fingerprint) {
            return Err(Error::ProofAlreadyUsed);
        }
        if let LedgerOutcome::Refused = ext.ledger_mint {
            return Err(Error::LedgerMintFailed);
        }
        // The external ledger minted; write the audit record and consume the
        // fingerprint together.
        let record = MintAuditRecord {
            recipient: to,
            amount,
            price,
            timestamp,
            commitment,
            proof_fingerprint: clone_bytes(&fingerprint),
            verified: true,
        };
        let id = self.ledger.append(record);
        let marked = self.store.mark_used(&fingerprint, ext.now);
        if marked.is_err() {
            // Unreachable: the replay check above saw the fingerprint unused
            // and nothing consumed it since.
            return Err(Error::ProofAlreadyUsed);
        }
        proof {
            let fp = keccak256_of(req.proof);
            let post = self@;
            let pre = old(self)@;
            assert(post.records =~= pre.records.push(minted_record(req)));
            assert(post.used =~= pre.used.push(
                UsageModel { fingerprint: fp, first_used_at: ext.now },
            ));
            assert(post =~= (ProtocolModel {
                records: pre.records.push(minted_record(req)),
                used: pre.used.push(UsageModel { fingerprint: fp, first_used_at: ext.now }),
                max_proof_age: pre.max_proof_age,
            }));
            lemma_commit_preserves_wf(pre, req, ext.now);
        }
        Ok(id)
    }

    /// The audit record written by mint `mint_id`, or `None` when no mint
    /// ever received that identifier.
    pub fn get_mint_metadata(&self, mint_id: u32) -> (r: Option<MintAuditRecord>)
        ensures
            match r {
                Some(record) => (mint_id as int) < self@.records.len() && record@
                    == self@.records[mint_id as int],
                None => self@.records.len() <= mint_id as int,
            },
    {
        self.ledger.get(mint_id)
    }

    /// Whether mint `mint_id` exists and was proof-verified; `false`, not an
    /// error, when it does not exist.
    pub fn is_mint_verified(&self, mint_id: u32) -> (r: bool)
        ensures
            r == ((mint_id as int) < self@.records.len() && self@.records[mint_id as int].verified),
    {
        self.ledger.is_verified(mint_id)
    }

    /// The dataset commitment stored with mint `mint_id`.
    pub fn get_mint_commitment(&self, mint_id: u32) -> (r: Option<Vec<u8>>)
        ensures
            match r {
                Some(c) => (mint_id as int) < self@.records.len() && c@
                    == self@.records[mint_id as int].commitment,
                None => self@.records.len() <= mint_id as int,
            },
    {
        self.ledger.commitment_of(mint_id)
    }

    /// Whether a proof fingerprint has been consumed (anti-replay query).
    pub fn is_proof_used(&self, fingerprint: &Vec<u8>) -> (r: bool)
        ensures
            r == fp_used(self@.used, fingerprint@),
    {
        self.store.is_used(fingerprint)
    }

    /// When a proof fingerprint was first consumed; `None` exactly when it
    /// never was.
    pub fn get_proof_usage_timestamp(&self, fingerprint: &Vec<u8>) -> (r: Option<u64>)
        ensures
            r is Some <==> fp_used(self@.used, fingerprint@),
            r matches Some(t) ==> exists|i: int|
                0 <= i < self@.used.len() && self@.used[i].fingerprint == fingerprint@
                    && self@.used[i].first_used_at == t,
    {
        self.store.usage_timestamp(fingerprint)
    }
}

/// A successful commit — the record append and the fingerprint mark, applied
/// together to a well-formed state whose replay check passed — yields a
/// well-formed state again.
proof fn lemma_commit_preserves_wf(pre: ProtocolModel, req: MintRequestModel, now: u64)
    requires
        wf_model(pre),
        pre.records.len() < u32::MAX,
        !fp_used(pre.used, keccak256_of(req.proof)),
        keccak256_of(req.proof).len() == 32,
    ensures
        wf_model(
            ProtocolModel {
                records: pre.records.push(minted_record(req)),
                used: pre.used.push(
                    UsageModel { fingerprint: keccak256_of(req.proof), first_used_at: now },
                ),
                max_proof_age: pre.max_proof_age,
            },
        ),
{
    let fp = keccak256_of(req.proof);
    let post = ProtocolModel {
        records: pre.records.push(minted_record(req)),
        used: pre.used.push(UsageModel { fingerprint: fp, first_used_at: now }),
        max_proof_age: pre.max_proof_age,
    };
    assert forall|i: int, j: int|
        0 <= i < j < post.used.len() implies post.used[i].fingerprint
        != post.used[j].fingerprint by {
        if j < pre.used.len() {
        } else {
            assert(post.used[j].fingerprint == fp);
            if post.used[i].fingerprint == fp {
                assert(fp_used(pre.used, fp));
            }
        }
    }
    assert forall|i: int, j: int|
        0 <= i < j < post.records.len() implies post.records[i].fingerprint
        != post.records[j].fingerprint by {
        if j < pre.records.len() {
        } else {
            assert(post.records[j].fingerprint == fp);
            if post.records[i].fingerprint == fp {
                assert(fp_used(pre.used, fp));
            }
        }
    }
    assert forall|i: int| 0 <= i < post.records.len() implies fp_used(
        post.used,
        #[trigger] post.records[i].fingerprint,
    ) by {
        if i < pre.records.len() {
            let f = pre.records[i].fingerprint;
            assert(fp_used(pre.used, f));
            let w = choose|k: int| 0 <= k < pre.used.len() && pre.used[k].fingerprint == f;
            assert(post.used[w].fingerprint == f);
        } else {
            assert(post.used[pre.used.len() as int].fingerprint == fp);
        }
    }
}

} // verus!
