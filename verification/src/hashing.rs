//! Fingerprinting of proof artifacts.
//!
//! A fingerprint is the Keccak-256 digest of the artifact bytes, computed by
//! the Soroban host through `soroban_sdk`. The digest itself is named, not
//! restated: equal artifacts get equal fingerprints, and distinct legitimate
//! artifacts colliding is assumed cryptographically infeasible.

use vstd::prelude::*;

verus! {

/// The Soroban host environment handle, through which the digest host
/// function is reached. Opaque to this crate.
#[verifier::external_type_specification]
#[verifier::external_body]
pub struct ExEnv(soroban_sdk::Env);

/// The Keccak-256 digest of a byte sequence, as `soroban_sdk`'s
/// `Crypto::keccak256` computes it: a function of the bytes alone.
pub uninterp spec fn keccak256_of(data: Seq<u8>) -> Seq<u8>;

/// Relies on `soroban_sdk::crypto::Crypto::keccak256`: it returns the
/// Keccak-256 hash of the data, a 32-byte digest determined by the data
/// bytes alone. `Bytes::from_slice` and `BytesN::to_array` only carry the
/// bytes into and out of the host.
#[verifier::external_body]
pub(crate) fn keccak256_digest(env: &soroban_sdk::Env, data: &Vec<u8>) -> (r: Vec<u8>)
    ensures
        r@ == keccak256_of(data@),
        r@.len() == 32,
{
    let bytes = soroban_sdk::Bytes::from_slice(env, data.as_slice());
    let digest: soroban_sdk::BytesN<32> = env.crypto().keccak256(&bytes).into();
    digest.to_array().to_vec()
}

} // verus!
