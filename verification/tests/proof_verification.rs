//! Tests of the proof verifier: determinism, no false accept, leaf and
//! node construction, and the byte-level building blocks.
use light_client::bytes::{digest_of, push_all, push_u64_be, be_u64_at};
use light_client::commitment::{
    absence_leaf_digest, membership_leaf_digest, node_digest, verify_membership_proof,
    verify_non_membership_proof,
};
use light_client::errors::LightClientError;

fn step(side: u8, sibling: u64) -> Vec<u8> {
    let mut v = vec![side];
    v.extend_from_slice(&sibling.to_be_bytes());
    v
}

#[test]
fn push_u64_be_matches_std_encoding() {
    let mut v: Vec<u8> = Vec::new();
    push_u64_be(&mut v, 0x0123456789abcdef);
    assert_eq!(v, 0x0123456789abcdefu64.to_be_bytes().to_vec());
}

#[test]
fn be_u64_at_reads_back() {
    let mut v: Vec<u8> = vec![0xaa, 0xbb];
    push_u64_be(&mut v, 0xdeadbeef00112233);
    assert_eq!(be_u64_at(&v, 2), 0xdeadbeef00112233);
}

#[test]
fn push_all_appends() {
    let mut v: Vec<u8> = vec![1, 2];
    push_all(&mut v, &vec![3, 4, 5]);
    assert_eq!(v, vec![1, 2, 3, 4, 5]);
}

#[test]
fn digest_matches_reference_fold() {
    // FNV-1a 64 over the bytes, computed independently here.
    let data = b"light client".to_vec();
    let mut acc: u64 = 0xcbf29ce484222325;
    for b in &data {
        acc = (acc ^ (*b as u64)).wrapping_mul(0x100000001b3);
    }
    assert_eq!(digest_of(&data), acc);
}

#[test]
fn membership_accepts_with_empty_proof_at_leaf_root() {
    let path = b"k".to_vec();
    let value = b"v".to_vec();
    let root = membership_leaf_digest(&path, &value);
    assert_eq!(verify_membership_proof(root, &path, &value, &vec![]), Ok(()));
}

#[test]
fn verify_is_deterministic_across_repeated_calls() {
    let path = b"key".to_vec();
    let value = b"value".to_vec();
    let root = membership_leaf_digest(&path, &value);
    let proof: Vec<u8> = vec![];
    let first = verify_membership_proof(root, &path, &value, &proof);
    let second = verify_membership_proof(root, &path, &value, &proof);
    assert_eq!(first, second);
    let wrong = verify_membership_proof(root ^ 1, &path, &value, &proof);
    assert_eq!(wrong, verify_membership_proof(root ^ 1, &path, &value, &proof));
}

#[test]
fn no_false_accept_against_different_root() {
    let path = b"k".to_vec();
    let value = b"v".to_vec();
    let honest_root = membership_leaf_digest(&path, &value);
    let other_root = honest_root.wrapping_add(1);
    assert_eq!(
        verify_membership_proof(other_root, &path, &value, &vec![]),
        Err(LightClientError::ProofInvalid)
    );
}

#[test]
fn one_step_proof_verifies_under_node_root() {
    let path = b"alpha".to_vec();
    let value = b"1".to_vec();
    let leaf = membership_leaf_digest(&path, &value);
    let other = absence_leaf_digest(&b"beta".to_vec());
    // Leaf on the left, sibling on the right: the step's side marker is 1.
    let root = node_digest(leaf, other);
    assert_eq!(verify_membership_proof(root, &path, &value, &step(1, other)), Ok(()));
    // The same proof with the sides swapped must fail.
    assert_eq!(
        verify_membership_proof(root, &path, &value, &step(0, other)),
        Err(LightClientError::ProofInvalid)
    );
}

#[test]
fn empty_path_is_malformed() {
    let root = 7;
    assert_eq!(
        verify_membership_proof(root, &vec![], &b"v".to_vec(), &vec![]),
        Err(LightClientError::MalformedInput)
    );
    assert_eq!(
        verify_non_membership_proof(root, &vec![], &vec![]),
        Err(LightClientError::MalformedInput)
    );
}

#[test]
fn ill_sized_proof_bytes_are_malformed() {
    let path = b"k".to_vec();
    let value = b"v".to_vec();
    let root = membership_leaf_digest(&path, &value);
    assert_eq!(
        verify_membership_proof(root, &path, &value, &vec![0, 1, 2]),
        Err(LightClientError::MalformedInput)
    );
}

#[test]
fn zero_length_value_is_valid_and_distinct_from_absence() {
    let path = b"k".to_vec();
    let empty_value: Vec<u8> = Vec::new();
    let member_root = membership_leaf_digest(&path, &empty_value);
    let absent_root = absence_leaf_digest(&path);
    assert_ne!(member_root, absent_root);
    assert_eq!(verify_membership_proof(member_root, &path, &empty_value, &vec![]), Ok(()));
    assert_eq!(verify_non_membership_proof(absent_root, &path, &vec![]), Ok(()));
    assert_eq!(
        verify_non_membership_proof(member_root, &path, &vec![]),
        Err(LightClientError::ProofInvalid)
    );
}
