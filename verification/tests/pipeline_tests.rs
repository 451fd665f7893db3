//! The end-to-end scenario: a proof becomes a commitment, the commitment an
//! owned credential, and the oracle's sanction overlay runs independently of
//! credential validity.

use identity_pipeline::oracle::ComplianceOracle;
use identity_pipeline::principal::Principal;
use identity_pipeline::registry::CredentialRegistry;
use identity_pipeline::verification::Verifier;

#[test]
fn proof_to_credential_to_sanction_gate() {
    let principal_a = Principal::new(vec![0xA1u8; 32]);
    let admin = Principal::new(vec![0xADu8; 32]);
    let now: u64 = 1_700_000_000;

    let mut verifier = Verifier::new();
    verifier.set_verification_key(vec![1u8; 32]);
    let mut registry = CredentialRegistry::new();
    let mut oracle = ComplianceOracle::new();
    oracle.init(admin.duplicate()).unwrap();

    // Principal A submits a 300-byte proof and a 64-byte public-input blob.
    let proof = vec![0x42u8; 300];
    let public_inputs = vec![0x17u8; 64];
    let commitment = verifier
        .verify_identity_proof(principal_a.duplicate(), proof, public_inputs)
        .unwrap();
    assert_eq!(commitment.len(), 32);
    assert_eq!(verifier.get_commit_owner(&commitment).unwrap().id, principal_a.id);

    // A issues a credential against the commitment as proof hash.
    let id = registry.issue_credential(principal_a.duplicate(), commitment.clone(), 3600, now);
    assert!(registry.is_valid(&id, now));

    // The admin sanctions the commitment; credential validity is unaffected,
    // but a downstream gate combining both subsystems must deny access.
    oracle
        .set_sanction_status(&admin, commitment.clone(), true)
        .unwrap();
    assert!(registry.is_valid(&id, now));
    assert!(oracle.check_sanctions_list(&commitment));

    let access_granted = registry.is_valid(&id, now) && !oracle.check_sanctions_list(&commitment);
    assert!(!access_granted);
}
