use identity_pipeline::commitment;
use sha2::{Digest, Sha256};

fn sha(data: &[u8]) -> Vec<u8> {
    Sha256::digest(data).to_vec()
}

#[test]
fn derive_is_deterministic() {
    let proof = vec![7u8; 300];
    let inputs = vec![9u8; 64];
    let first = commitment::derive(&proof, &inputs);
    let second = commitment::derive(&proof, &inputs);
    assert_eq!(first, second);
    assert_eq!(first.len(), 32);
}

#[test]
fn derive_matches_two_stage_sha256() {
    let proof = vec![2u8; 256];
    let inputs = vec![3u8; 32];
    let mut combined = sha(&proof);
    combined.extend_from_slice(&sha(&inputs));
    let expected = sha(&combined);
    assert_eq!(commitment::derive(&proof, &inputs), expected);
}

#[test]
fn derive_handles_multi_megabyte_inputs() {
    let proof = vec![0x5Au8; 4 * 1024 * 1024];
    let inputs = vec![0x6Bu8; 64];
    let mut combined = sha(&proof);
    combined.extend_from_slice(&sha(&inputs));
    let expected = sha(&combined);
    assert_eq!(identity_pipeline::commitment::derive(&proof, &inputs), expected);
}

#[test]
fn derive_depends_on_both_arguments() {
    let proof = vec![1u8; 256];
    let inputs = vec![4u8; 32];
    let base = commitment::derive(&proof, &inputs);
    let other_proof = vec![2u8; 256];
    let other_inputs = vec![5u8; 32];
    assert_ne!(commitment::derive(&other_proof, &inputs), base);
    assert_ne!(commitment::derive(&proof, &other_inputs), base);
    assert_ne!(base, proof);
    assert_ne!(base, sha(&proof));
}
