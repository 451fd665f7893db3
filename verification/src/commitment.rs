//! The commitment deriver: a pure function turning a proof byte string and
//! its public-inputs byte string into a 32-byte commitment via two-stage
//! hashing, `SHA256(SHA256(proof) || SHA256(public_inputs))`.
//!
//! The commitment is the join key of the whole pipeline: the registry and the
//! oracle key their records by it, and off-chain provers must be able to
//! recompute it bit for bit, so derivation must be deterministic.

use vstd::prelude::*;
use crate::bytes::append_bytes;

verus! {

/// The SHA-256 digest of a byte string, as computed by the host's hash
/// function. Always 32 bytes long; a pure function of its input.
pub uninterp spec fn sha256_of(data: Seq<u8>) -> Seq<u8>;

/// The commitment bound to a `(proof, public_inputs)` pair: the digest of the
/// two inner digests, concatenated.
pub open spec fn commitment_of(proof: Seq<u8>, public_inputs: Seq<u8>) -> Seq<u8> {
    sha256_of(sha256_of(proof) + sha256_of(public_inputs))
}

/// Relies on soroban_sdk's `Crypto::sha256`, which computes the SHA-256
/// digest of the input bytes: 32 bytes, a function of the input alone.
/// The host's byte strings are capped at `u32::MAX` bytes, hence the bound.
/// The per-call environment keeps no state: snapshot capture is off, and its
/// metered budget is lifted so no admitted input can exhaust it.
#[verifier::external_body]
fn sha256(data: &Vec<u8>) -> (r: Vec<u8>)
    requires
        data@.len() <= u32::MAX,
    ensures
        r@ == sha256_of(data@),
        r@.len() == 32,
{
    let env = soroban_sdk::Env::new_with_config(soroban_sdk::testutils::EnvTestConfig {
        capture_snapshot_at_drop: false,
    });
    env.cost_estimate().budget().reset_unlimited();
    let bytes = soroban_sdk::Bytes::from_slice(&env, data.as_slice());
    env.crypto().sha256(&bytes).to_array().to_vec()
}

/// Derives the 32-byte commitment for a `(proof, public_inputs)` pair.
///
/// Pure and total on its admitted inputs: no error paths, and identical byte
/// inputs always yield the identical commitment, whatever the execution
/// context.
pub fn derive(proof: &Vec<u8>, public_inputs: &Vec<u8>) -> (r: Vec<u8>)
    requires
        proof@.len() <= u32::MAX,
        public_inputs@.len() <= u32::MAX,
    ensures
        r@ == commitment_of(proof@, public_inputs@),
        r@.len() == 32,
{
    let mut combined = sha256(proof);
    let inputs_hash = sha256(public_inputs);
    append_bytes(&mut combined, &inputs_hash);
    sha256(&combined)
}

/// The derived commitment is deterministic: it is a function of the two byte
/// strings alone, so two derivations from equal bytes agree.
pub proof fn lemma_derive_deterministic(
    proof1: Seq<u8>,
    public_inputs1: Seq<u8>,
    proof2: Seq<u8>,
    public_inputs2: Seq<u8>,
)
    requires
        proof1 == proof2,
        public_inputs1 == public_inputs2,
    ensures
        commitment_of(proof1, public_inputs1) == commitment_of(proof2, public_inputs2),
{
}

} // verus!
