//! The verifier: turns an opaque proof plus its public inputs into a
//! deterministic commitment bound to the authenticated caller that produced
//! it, and records which principal verified each commitment.
//!
//! Proof validation here is structural: shape and size checks plus the
//! two-stage hash commitment. A production deployment must substitute true
//! pairing verification against the stored verification key behind the same
//! interface and error taxonomy.

use vstd::prelude::*;
use crate::appended;
use crate::bytes::copy_bytes;
use crate::commitment::commitment_of;
use crate::principal::Principal;
use crate::store::ByteMap;

verus! {

/// Why a proof was not accepted.
#[derive(Clone, Copy, Debug, PartialEq, Eq, Structural)]
pub enum VerifierError {
    /// No verification key has been configured.
    VkNotSet,
    /// The proof byte string is empty.
    EmptyProof,
    /// The public-inputs byte string is empty.
    EmptyInputs,
    /// The proof is shorter than the 256 bytes a packed proof occupies.
    InvalidProofSize,
    /// Reserved for consumers that re-check a commitment and find none.
    NotVerified,
}

/// A proof in compact form: one G1 point of two coordinates, one G2 point of
/// two-by-two coordinates, one G1 point of two coordinates.
pub struct Groth16Proof {
    pub pi_a: Vec<Vec<u8>>,
    pub pi_b: Vec<Vec<Vec<u8>>>,
    pub pi_c: Vec<Vec<u8>>,
}

/// A structured verification key: the curve points a pairing check verifies
/// against.
pub struct VerificationKey {
    pub alpha: Vec<Vec<u8>>,
    pub beta: Vec<Vec<Vec<u8>>>,
    pub gamma: Vec<Vec<Vec<u8>>>,
    pub delta: Vec<Vec<Vec<u8>>>,
    pub ic: Vec<Vec<Vec<u8>>>,
}

/// The verification-key slot holds either a raw byte string or a structured
/// key, whichever was set last.
pub enum StoredVk {
    Raw(Vec<u8>),
    Structured(VerificationKey),
}

/// Audit event: a proof was verified and its commitment owner-bound.
pub struct ProofVerified {
    pub verifier: Principal,
    pub public_count: u32,
    pub commitment: Vec<u8>,
}

/// Audit event: the verification key was replaced.
pub struct VkSet {
    pub vk_len: u32,
}

/// An entry of the verifier's append-only audit log.
pub enum VerifierEvent {
    Verified(ProofVerified),
    KeySet(VkSet),
}

/// The first check `verify_identity_proof` fails, if any, in the order key
/// configured, proof non-empty, inputs non-empty, proof long enough.
pub open spec fn verify_outcome(vk_set: bool, proof_len: nat, inputs_len: nat) -> Option<
    VerifierError,
> {
    if !vk_set {
        Some(VerifierError::VkNotSet)
    } else if proof_len == 0 {
        Some(VerifierError::EmptyProof)
    } else if inputs_len == 0 {
        Some(VerifierError::EmptyInputs)
    } else if proof_len < 256 {
        Some(VerifierError::InvalidProofSize)
    } else {
        None
    }
}

/// Matches a `Verified` audit event with the given content.
pub open spec fn is_verified_event(
    e: VerifierEvent,
    verifier: Seq<u8>,
    public_count: u32,
    commitment: Seq<u8>,
) -> bool {
    e matches VerifierEvent::Verified(ev) && ev.verifier@ == verifier && ev.public_count
        == public_count && ev.commitment@ == commitment
}

/// Matches a `KeySet` audit event with the given content.
pub open spec fn is_key_set_event(e: VerifierEvent, vk_len: u32) -> bool {
    e matches VerifierEvent::KeySet(ev) && ev.vk_len == vk_len
}

/// The verifier's state: the verification-key slot, the commitment-to-owner
/// records, and the audit log.
pub struct Verifier {
    /// The verification-key slot; `None` until a key is set.
    pub vk: Option<StoredVk>,
    /// Which principal verified each commitment.
    pub commits: ByteMap<Principal>,
    /// Append-only audit log, consumed by external indexers.
    pub events: Vec<VerifierEvent>,
}

impl Verifier {
    /// A verifier with no key and no records, as deployed.
    pub fn new() -> (r: Self)
        ensures
            r.vk is None,
            r.commits@ == Map::<Seq<u8>, Seq<u8>>::empty(),
            r.events@ == Seq::<VerifierEvent>::empty(),
    {
        Verifier { vk: None, commits: ByteMap::new(), events: Vec::new() }
    }

    /// Validates the shape of `proof` and `public_inputs`, derives their
    /// commitment, records the caller as its owner, and returns it.
    ///
    /// The caller must be authenticated as `caller` before the call proceeds.
    /// Re-submitting the same pair overwrites the recorded owner for that
    /// exact commitment with the submitting caller.
    pub fn verify_identity_proof(
        &mut self,
        caller: Principal,
        proof: Vec<u8>,
        public_inputs: Vec<u8>,
    ) -> (r: Result<Vec<u8>, VerifierError>)
        requires
            proof@.len() <= u32::MAX,
            public_inputs@.len() <= u32::MAX,
        ensures
            match verify_outcome(old(self).vk is Some, proof@.len(), public_inputs@.len()) {
                Some(e) => r == Err::<Vec<u8>, VerifierError>(e) && *final(self) == *old(self),
                None => {
                    &&& r matches Ok(c) && c@ == commitment_of(proof@, public_inputs@) && c@.len()
                        == 32
                    &&& final(self).commits@ == old(self).commits@.insert(
                        commitment_of(proof@, public_inputs@),
                        caller@,
                    )
                    &&& final(self).vk == old(self).vk
                    &&& appended(old(self).events@, final(self).events@)
                    &&& is_verified_event(
                        final(self).events@.last(),
                        caller@,
                        (public_inputs@.len() / 32) as u32,
                        commitment_of(proof@, public_inputs@),
                    )
                },
            },
    {
        if self.vk.is_none() {
            return Err(VerifierError::VkNotSet);
        }
        if proof.len() == 0 {
            return Err(VerifierError::EmptyProof);
        }
        if public_inputs.len() == 0 {
            return Err(VerifierError::EmptyInputs);
        }
        if proof.len() < 256 {
            return Err(VerifierError::InvalidProofSize);
        }
        let public_count = (public_inputs.len() / 32) as u32;
        let commitment = crate::commitment::derive(&proof, &public_inputs);
        self.commits.set(copy_bytes(&commitment), caller.duplicate());
        self.events.push(
            VerifierEvent::Verified(
                ProofVerified { verifier: caller, public_count, commitment: copy_bytes(&commitment) },
            ),
        );
        Ok(commitment)
    }

    /// The principal that verified `commitment`, if any. Pure read, never
    /// fails.
    pub fn get_commit_owner(&self, commitment: &Vec<u8>) -> (r: Option<Principal>)
        ensures
            match r {
                Some(p) => self.commits@.contains_key(commitment@) && p@
                    == self.commits@[commitment@],
                None => !self.commits@.contains_key(commitment@),
            },
    {
        match self.commits.get(commitment) {
            Some(p) => Some(p.duplicate()),
            None => None,
        }
    }

    /// Whether `commitment` has been recorded by a verification. Pure read,
    /// never fails.
    pub fn is_commit_verified(&self, commitment: &Vec<u8>) -> (r: bool)
        ensures
            r == self.commits@.contains_key(commitment@),
    {
        self.commits.has(commitment)
    }

    /// Replaces the verification key wholesale with a raw byte string.
    pub fn set_verification_key(&mut self, vk: Vec<u8>)
        requires
            vk@.len() <= u32::MAX,
        ensures
            final(self).vk == Some(StoredVk::Raw(vk)),
            final(self).commits@ == old(self).commits@,
            appended(old(self).events@, final(self).events@),
            is_key_set_event(final(self).events@.last(), vk@.len() as u32),
    {
        let vk_len = vk.len() as u32;
        self.vk = Some(StoredVk::Raw(vk));
        self.events.push(VerifierEvent::KeySet(VkSet { vk_len }));
    }

    /// Replaces the verification key wholesale with a structured key.
    pub fn set_vk_structured(&mut self, vk: VerificationKey)
        requires
            vk.ic@.len() <= u32::MAX,
        ensures
            final(self).vk == Some(StoredVk::Structured(vk)),
            final(self).commits@ == old(self).commits@,
            appended(old(self).events@, final(self).events@),
            is_key_set_event(final(self).events@.last(), vk.ic@.len() as u32),
    {
        let ic_len = vk.ic.len() as u32;
        self.vk = Some(StoredVk::Structured(vk));
        self.events.push(VerifierEvent::KeySet(VkSet { vk_len: ic_len }));
    }

    /// The current raw verification key, if any. Reading the slot as raw
    /// bytes is only defined while it does not hold a structured key.
    pub fn get_verification_key(&self) -> (r: Option<Vec<u8>>)
        requires
            !(self.vk matches Some(StoredVk::Structured(_))),
        ensures
            match r {
                Some(b) => self.vk matches Some(StoredVk::Raw(raw)) && b@ == raw@,
                None => self.vk is None,
            },
    {
        match &self.vk {
            Some(StoredVk::Raw(b)) => Some(copy_bytes(b)),
            Some(StoredVk::Structured(_)) => None,
            None => None,
        }
    }

    /// The deployed logic's version tag.
    pub fn version() -> (r: &'static str)
        ensures
            r@ == "v1_1_0"@,
    {
        "v1_1_0"
    }
}

/// Law: each malformed input is refused with its own error kind, in a fixed
/// order of checks, and every well-shaped submission is accepted.
pub proof fn lemma_proof_validation(proof_len: nat, inputs_len: nat)
    ensures
        verify_outcome(false, proof_len, inputs_len) == Some(VerifierError::VkNotSet),
        proof_len == 0 ==> verify_outcome(true, proof_len, inputs_len) == Some(
            VerifierError::EmptyProof,
        ),
        proof_len > 0 && inputs_len == 0 ==> verify_outcome(true, proof_len, inputs_len) == Some(
            VerifierError::EmptyInputs,
        ),
        proof_len > 0 && inputs_len > 0 && proof_len < 256 ==> verify_outcome(
            true,
            proof_len,
            inputs_len,
        ) == Some(VerifierError::InvalidProofSize),
        proof_len >= 256 && inputs_len > 0 ==> verify_outcome(true, proof_len, inputs_len) is None,
{
}

} // verus!
