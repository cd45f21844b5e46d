//! The protocol's laws, proved once and for all over the transition
//! relation of `mint_with_proof`.

use vstd::prelude::*;

use crate::errors::Error;
use crate::hashing::keccak256_of;
use crate::outcomes::CollaboratorOutcomes;
use crate::store::fp_used;
use crate::token::MintRequestModel;
use crate::token::ProtocolModel;
use crate::token::mint_transition;
use crate::token::minted_record;
use crate::validator::screen_verdict;
use crate::validator::validation_verdict;

verus! {

/// Law: atomicity. A request that fails leaves the protocol state exactly as
/// it was — no audit record, no consumed fingerprint, nothing.
pub proof fn lemma_atomicity(
    pre: ProtocolModel,
    req: MintRequestModel,
    ext: CollaboratorOutcomes,
    post: ProtocolModel,
    r: Result<u32, Error>,
)
    requires
        mint_transition(pre, req, ext, post, r),
        r is Err,
    ensures
        post == pre,
{
}

/// Law: a fingerprint once consumed stays consumed across any request,
/// successful or not.
pub proof fn lemma_used_fingerprints_persist(
    pre: ProtocolModel,
    req: MintRequestModel,
    ext: CollaboratorOutcomes,
    post: ProtocolModel,
    r: Result<u32, Error>,
    fp: Seq<u8>,
)
    requires
        mint_transition(pre, req, ext, post, r),
        fp_used(pre.used, fp),
    ensures
        fp_used(post.used, fp),
{
    if r is Ok {
        let w = choose|i: int| 0 <= i < pre.used.len() && pre.used[i].fingerprint == fp;
        assert(post.used[w].fingerprint == fp);
    }
}

/// Law: a request whose proof artifact's fingerprint is already consumed
/// never succeeds; and when it passes screening and validation, it fails
/// with exactly `ProofAlreadyUsed`.
pub proof fn lemma_used_proof_never_mints(
    pre: ProtocolModel,
    req: MintRequestModel,
    ext: CollaboratorOutcomes,
    post: ProtocolModel,
    r: Result<u32, Error>,
)
    requires
        mint_transition(pre, req, ext, post, r),
        fp_used(pre.used, keccak256_of(req.proof)),
    ensures
        r is Err,
        screen_verdict(ext.auth, req.amount) is Ok && validation_verdict(
            ext.verifier,
            req.public_inputs,
            req.price,
            req.timestamp,
            ext.now,
            pre.max_proof_age,
        ) is Ok ==> r == Err::<u32, Error>(Error::ProofAlreadyUsed),
{
}

/// Law: no replay. Of two requests that submit the same proof artifact, run
/// one after the other, at most the first succeeds; the second fails, and
/// with exactly `ProofAlreadyUsed` whenever it passes screening and
/// validation. The recipient, amount and all other arguments of the second
/// request are arbitrary.
pub proof fn lemma_no_replay(
    pre: ProtocolModel,
    req1: MintRequestModel,
    ext1: CollaboratorOutcomes,
    mid: ProtocolModel,
    r1: Result<u32, Error>,
    req2: MintRequestModel,
    ext2: CollaboratorOutcomes,
    post: ProtocolModel,
    r2: Result<u32, Error>,
)
    requires
        mint_transition(pre, req1, ext1, mid, r1),
        mint_transition(mid, req2, ext2, post, r2),
        req2.proof == req1.proof,
        r1 is Ok,
    ensures
        r2 is Err,
        screen_verdict(ext2.auth, req2.amount) is Ok && validation_verdict(
            ext2.verifier,
            req2.public_inputs,
            req2.price,
            req2.timestamp,
            ext2.now,
            mid.max_proof_age,
        ) is Ok ==> r2 == Err::<u32, Error>(Error::ProofAlreadyUsed),
{
    let fp = keccak256_of(req1.proof);
    assert(mid.used[pre.used.len() as int].fingerprint == fp);
    assert(fp_used(mid.used, fp));
    lemma_used_proof_never_mints(mid, req2, ext2, post, r2);
}

/// Law: monotonic identifiers. Two successful mints, one after the other,
/// receive consecutive identifiers: no identifier is skipped between
/// successes and none is ever reused.
pub proof fn lemma_monotonic_ids(
    pre: ProtocolModel,
    req1: MintRequestModel,
    ext1: CollaboratorOutcomes,
    mid: ProtocolModel,
    id1: u32,
    req2: MintRequestModel,
    ext2: CollaboratorOutcomes,
    post: ProtocolModel,
    id2: u32,
)
    requires
        pre.records.len() < u32::MAX,
        mint_transition(pre, req1, ext1, mid, Ok(id1)),
        mint_transition(mid, req2, ext2, post, Ok(id2)),
    ensures
        id2 == id1 + 1,
{
}

/// Law: audit completeness. A successful mint's identifier names an audit
/// record that exists, is marked proof-verified, and carries exactly the
/// recipient, amount, price, timestamp, commitment and fingerprint of the
/// request that produced it; and the consumed fingerprint is on record with
/// the network time of the request.
pub proof fn lemma_audit_completeness(
    pre: ProtocolModel,
    req: MintRequestModel,
    ext: CollaboratorOutcomes,
    post: ProtocolModel,
    id: u32,
)
    requires
        pre.records.len() < u32::MAX,
        mint_transition(pre, req, ext, post, Ok(id)),
    ensures
        id as int == pre.records.len(),
        post.records.len() == pre.records.len() + 1,
        post.records[id as int] == minted_record(req),
        post.records[id as int].verified,
        post.records[id as int].recipient == req.to,
        post.records[id as int].amount == req.amount,
        post.records[id as int].price == req.price,
        post.records[id as int].timestamp == req.timestamp,
        post.records[id as int].commitment == req.commitment,
        post.records[id as int].fingerprint == keccak256_of(req.proof),
        fp_used(post.used, keccak256_of(req.proof)),
        post.used[post.used.len() - 1].fingerprint == keccak256_of(req.proof),
        post.used[post.used.len() - 1].first_used_at == ext.now,
{
    assert(post.used[post.used.len() - 1].fingerprint == keccak256_of(req.proof));
}

} // verus!
