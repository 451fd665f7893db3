use identity_pipeline::principal::Principal;
use identity_pipeline::verification::{Verifier, VerifierError};

#[test]
fn verify_and_store_commitment() {
    let mut verifier = Verifier::new();
    verifier.set_verification_key(vec![1u8; 32]);

    let proof = vec![2u8; 256];
    let public_inputs = vec![3u8; 32];
    let caller = Principal::new(vec![0xAAu8; 32]);

    let commitment = verifier
        .verify_identity_proof(caller.duplicate(), proof, public_inputs)
        .unwrap();

    let owner = verifier.get_commit_owner(&commitment).unwrap();
    assert_eq!(owner.id, caller.id);
    assert!(verifier.is_commit_verified(&commitment));
}

#[test]
fn rejects_without_verification_key() {
    let mut verifier = Verifier::new();
    let caller = Principal::new(vec![1u8; 32]);
    let r = verifier.verify_identity_proof(caller, vec![2u8; 256], vec![3u8; 32]);
    assert_eq!(r, Err(VerifierError::VkNotSet));
}

#[test]
fn rejects_malformed_submissions_each_with_its_own_error() {
    let mut verifier = Verifier::new();
    verifier.set_verification_key(vec![1u8; 32]);
    let caller = Principal::new(vec![1u8; 32]);

    let r = verifier.verify_identity_proof(caller.duplicate(), vec![], vec![3u8; 32]);
    assert_eq!(r, Err(VerifierError::EmptyProof));

    let r = verifier.verify_identity_proof(caller.duplicate(), vec![2u8; 256], vec![]);
    assert_eq!(r, Err(VerifierError::EmptyInputs));

    let r = verifier.verify_identity_proof(caller.duplicate(), vec![2u8; 255], vec![3u8; 32]);
    assert_eq!(r, Err(VerifierError::InvalidProofSize));

    let r = verifier.verify_identity_proof(caller, vec![2u8; 256], vec![3u8; 32]);
    let commitment = r.unwrap();
    assert_eq!(commitment.len(), 32);
}

#[test]
fn resubmission_by_another_caller_reassigns_ownership() {
    let mut verifier = Verifier::new();
    verifier.set_verification_key(vec![1u8; 32]);
    let first = Principal::new(vec![1u8; 32]);
    let second = Principal::new(vec![2u8; 32]);

    let c1 = verifier
        .verify_identity_proof(first, vec![2u8; 256], vec![3u8; 32])
        .unwrap();
    let c2 = verifier
        .verify_identity_proof(second.duplicate(), vec![2u8; 256], vec![3u8; 32])
        .unwrap();
    assert_eq!(c1, c2);
    assert_eq!(verifier.get_commit_owner(&c1).unwrap().id, second.id);
}

#[test]
fn verification_key_round_trip() {
    let mut verifier = Verifier::new();
    assert!(verifier.get_verification_key().is_none());
    verifier.set_verification_key(vec![5u8; 48]);
    assert_eq!(verifier.get_verification_key(), Some(vec![5u8; 48]));
    assert!(!verifier.is_commit_verified(&vec![0u8; 32]));
}

#[test]
fn verifier_version_tag() {
    assert_eq!(Verifier::version(), "v1_1_0");
}
