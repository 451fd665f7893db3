use identity_pipeline::principal::Principal;
use identity_pipeline::registry::{CredentialError, CredentialRegistry};

fn owner() -> Principal {
    Principal::new(vec![0x11u8; 32])
}

#[test]
fn issued_credential_is_immediately_valid_and_owner_bound() {
    let mut registry = CredentialRegistry::new();
    let now: u64 = 1_700_000_000;
    let id = registry.issue_credential(owner(), vec![0xABu8; 32], 3600, now);
    assert_eq!(id, vec![0xABu8; 32]);
    assert!(registry.is_valid(&id, now));
    let cred = registry.get_credential(&id).unwrap();
    assert_eq!(cred.owner.id, owner().id);
    assert_eq!(cred.proof_hash, id);
    assert_eq!(cred.expires_at, now + 3600);
    assert!(!cred.revoked);
}

#[test]
fn expiry_invalidates_without_mutation() {
    let mut registry = CredentialRegistry::new();
    let now: u64 = 1000;
    let id = registry.issue_credential(owner(), vec![1u8; 32], 60, now);
    assert!(registry.is_valid(&id, now));
    assert!(registry.is_valid(&id, now + 59));
    assert!(!registry.is_valid(&id, now + 60));
    assert!(!registry.is_valid(&id, now + 61));
    let cred = registry.get_credential(&id).unwrap();
    assert!(!cred.revoked);
}

#[test]
fn zero_ttl_is_never_valid() {
    let mut registry = CredentialRegistry::new();
    let id = registry.issue_credential(owner(), vec![2u8; 32], 0, 500);
    assert!(!registry.is_valid(&id, 500));
}

#[test]
fn revoke_is_one_shot_and_terminal() {
    let mut registry = CredentialRegistry::new();
    let now: u64 = 1000;
    let id = registry.issue_credential(owner(), vec![3u8; 32], 3600, now);
    assert_eq!(registry.revoke(&owner(), &id), Ok(()));
    assert!(!registry.is_valid(&id, now));
    assert_eq!(registry.revoke(&owner(), &id), Err(CredentialError::AlreadyRevoked));
    assert!(!registry.is_valid(&id, now));
    assert!(registry.get_credential(&id).unwrap().revoked);
}

#[test]
fn revoke_by_non_owner_is_refused_and_changes_nothing() {
    let mut registry = CredentialRegistry::new();
    let now: u64 = 1000;
    let id = registry.issue_credential(owner(), vec![4u8; 32], 3600, now);
    let intruder = Principal::new(vec![0x99u8; 32]);
    assert_eq!(registry.revoke(&intruder, &id), Err(CredentialError::Unauthorized));
    assert!(!registry.get_credential(&id).unwrap().revoked);
    assert!(registry.is_valid(&id, now));
}

#[test]
fn revoke_of_unknown_credential_is_not_found() {
    let mut registry = CredentialRegistry::new();
    assert_eq!(
        registry.revoke(&owner(), &vec![5u8; 32]),
        Err(CredentialError::NotFound)
    );
}

#[test]
fn reissue_overwrites_prior_state_including_revocation() {
    let mut registry = CredentialRegistry::new();
    let now: u64 = 1000;
    let id = registry.issue_credential(owner(), vec![6u8; 32], 3600, now);
    registry.revoke(&owner(), &id).unwrap();
    assert!(!registry.is_valid(&id, now));
    let id2 = registry.issue_credential(owner(), vec![6u8; 32], 3600, now);
    assert_eq!(id, id2);
    assert!(registry.is_valid(&id, now));
}

#[test]
fn absent_record_is_invalid_and_unqueryable() {
    let registry = CredentialRegistry::new();
    assert!(!registry.is_valid(&vec![7u8; 32], 0));
    assert!(registry.get_credential(&vec![7u8; 32]).is_none());
}

#[test]
fn registry_version_tag() {
    assert_eq!(CredentialRegistry::version(), "v0_2_0");
}
