//! The commitment scheme of the remote chain and its proof verifier.
//!
//! A commitment root is a 64-bit digest. A fact (`path` maps to `value`, or
//! `path` is absent) is committed by a tagged leaf digest, and a proof is a
//! sequence of 9-byte steps, each a side marker followed by the big-endian
//! digest of a sibling subtree. Verification folds the leaf digest through
//! the steps and succeeds exactly when the result is the supplied root.
//!
//! Verification is side-effect-free and deterministic: the verdict is a
//! function of the root, path, value and proof bytes alone.
use vstd::prelude::*;
use crate::bytes::{digest64, digest_of, push_all, push_u64_be, u64_be, be_u64, be_u64_at};
use crate::errors::LightClientError;

verus! {

/// Number of bytes in one proof step: a side marker and a sibling digest.
pub const PROOF_STEP_BYTES: usize = 9;

/// Leaf bytes committing that `path` maps to `value`.
///
/// The path length prefix keeps the encoding of (path, value) pairs
/// injective; a zero-length value is a valid committed value, distinct
/// from absence.
pub open spec fn membership_leaf(path: Seq<u8>, value: Seq<u8>) -> Seq<u8> {
    seq![0u8] + u64_be(path.len() as u64) + path + value
}

/// Leaf bytes committing that `path` is absent.
pub open spec fn absence_leaf(path: Seq<u8>) -> Seq<u8> {
    seq![1u8] + path
}

/// Inner-node bytes combining two child digests.
pub open spec fn node_bytes(left: u64, right: u64) -> Seq<u8> {
    seq![3u8] + u64_be(left) + u64_be(right)
}

/// One fold step: combine the accumulator with a sibling digest, on the
/// side named by the step's marker byte (zero puts the sibling left).
pub open spec fn step_digest(acc: u64, side: u8, sibling: u64) -> u64 {
    if side == 0 {
        digest64(node_bytes(sibling, acc))
    } else {
        digest64(node_bytes(acc, sibling))
    }
}

/// Folds an accumulated digest through proof bytes, 9 bytes per step.
pub open spec fn fold_steps(acc: u64, proof: Seq<u8>) -> u64
    decreases proof.len(),
{
    if proof.len() < 9 {
        acc
    } else {
        fold_steps(step_digest(acc, proof[0], be_u64(proof.subrange(1, 9))), proof.skip(9))
    }
}

/// Whether proof bytes are well shaped: a whole number of 9-byte steps.
pub open spec fn proof_shape_ok(proof: Seq<u8>) -> bool {
    proof.len() % 9 == 0
}

/// The verdict of a membership query: `Ok` exactly when the proof folds the
/// membership leaf of `(path, value)` to `root`; an empty path or ill-sized
/// proof bytes are malformed.
pub open spec fn membership_verdict(
    root: u64,
    path: Seq<u8>,
    value: Seq<u8>,
    proof: Seq<u8>,
) -> Result<(), LightClientError> {
    if path.len() == 0 || !proof_shape_ok(proof) {
        Err(LightClientError::MalformedInput)
    } else if fold_steps(digest64(membership_leaf(path, value)), proof) == root {
        Ok(())
    } else {
        Err(LightClientError::ProofInvalid)
    }
}

/// The verdict of a non-membership query, folding the absence leaf of `path`.
pub open spec fn non_membership_verdict(
    root: u64,
    path: Seq<u8>,
    proof: Seq<u8>,
) -> Result<(), LightClientError> {
    if path.len() == 0 || !proof_shape_ok(proof) {
        Err(LightClientError::MalformedInput)
    } else if fold_steps(digest64(absence_leaf(path)), proof) == root {
        Ok(())
    } else {
        Err(LightClientError::ProofInvalid)
    }
}

/// Computes the digest of the membership leaf of `(path, value)`.
///
/// An empty proof witnesses this digest as the root itself, so the function
/// doubles as the root constructor for a single committed fact.
pub fn membership_leaf_digest(path: &Vec<u8>, value: &Vec<u8>) -> (r: u64)
    ensures
        r == digest64(membership_leaf(path@, value@)),
{
    let mut bytes: Vec<u8> = Vec::new();
    bytes.push(0u8);
    push_u64_be(&mut bytes, path.len() as u64);
    push_all(&mut bytes, path);
    push_all(&mut bytes, value);
    proof {
        assert(bytes@ =~= membership_leaf(path@, value@));
    }
    digest_of(&bytes)
}

/// Computes the digest of the absence leaf of `path`.
pub fn absence_leaf_digest(path: &Vec<u8>) -> (r: u64)
    ensures
        r == digest64(absence_leaf(path@)),
{
    let mut bytes: Vec<u8> = Vec::new();
    bytes.push(1u8);
    push_all(&mut bytes, path);
    proof {
        assert(bytes@ =~= absence_leaf(path@));
    }
    digest_of(&bytes)
}

/// Computes the digest of an inner node over two child digests.
pub fn node_digest(left: u64, right: u64) -> (r: u64)
    ensures
        r == digest64(node_bytes(left, right)),
{
    let mut bytes: Vec<u8> = Vec::new();
    bytes.push(3u8);
    push_u64_be(&mut bytes, left);
    push_u64_be(&mut bytes, right);
    proof {
        assert(bytes@ =~= node_bytes(left, right));
    }
    digest_of(&bytes)
}

/// Folds a leaf digest through well-shaped proof bytes.
pub fn fold_proof(leaf: u64, proof: &Vec<u8>) -> (r: u64)
    requires
        proof_shape_ok(proof@),
    ensures
        r == fold_steps(leaf, proof@),
{
    let n = proof.len();
    let total: usize = n / 9;
    proof {
        vstd::arithmetic::div_mod::lemma_fundamental_div_mod(n as int, 9);
        assert(proof@.skip(0) =~= proof@);
    }
    let mut acc: u64 = leaf;
    let mut k: usize = 0;
    let mut i: usize = 0;
    while k < total
        invariant
            i == 9 * k,
            k <= total,
            n == 9 * total,
            proof@.len() == n,
            fold_steps(acc, proof@.skip(i as int)) == fold_steps(leaf, proof@),
        decreases total - k,
    {
        let side = proof[i];
        let sibling = be_u64_at(proof, i + 1);
        proof {
            let s = proof@.skip(i as int);
            assert(s[0] == proof@[i as int]);
            assert(s.subrange(1, 9) =~= proof@.subrange(i as int + 1, i as int + 9));
            assert(s.skip(9) =~= proof@.skip(i as int + 9));
        }
        acc = if side == 0 {
            node_digest(sibling, acc)
        } else {
            node_digest(acc, sibling)
        };
        i = i + 9;
        k = k + 1;
    }
    proof {
        assert(proof@.skip(n as int) =~= Seq::<u8>::empty());
    }
    acc
}

/// Checks a membership claim: that `path` maps to `value` under `root`.
///
/// Returns `Ok` exactly when the proof bytes are a valid witness; the
/// verdict is a function of the arguments alone, with no side effects.
pub fn verify_membership_proof(
    root: u64,
    path: &Vec<u8>,
    value: &Vec<u8>,
    proof: &Vec<u8>,
) -> (r: Result<(), LightClientError>)
    ensures
        r == membership_verdict(root, path@, value@, proof@),
{
    if path.len() == 0 {
        return Err(LightClientError::MalformedInput);
    }
    if proof.len() % 9 != 0 {
        return Err(LightClientError::MalformedInput);
    }
    let leaf = membership_leaf_digest(path, value);
    let folded = fold_proof(leaf, proof);
    if folded == root {
        Ok(())
    } else {
        Err(LightClientError::ProofInvalid)
    }
}

/// Checks a non-membership claim: that `path` is absent under `root`.
pub fn verify_non_membership_proof(
    root: u64,
    path: &Vec<u8>,
    proof: &Vec<u8>,
) -> (r: Result<(), LightClientError>)
    ensures
        r == non_membership_verdict(root, path@, proof@),
{
    if path.len() == 0 {
        return Err(LightClientError::MalformedInput);
    }
    if proof.len() % 9 != 0 {
        return Err(LightClientError::MalformedInput);
    }
    let leaf = absence_leaf_digest(path);
    let folded = fold_proof(leaf, proof);
    if folded == root {
        Ok(())
    } else {
        Err(LightClientError::ProofInvalid)
    }
}

/// Determinism: the membership verdict is a function of the root, path,
/// value and proof bytes alone, so repeated calls on equal inputs return
/// equal results.
pub proof fn lemma_verify_deterministic(
    root1: u64,
    path1: Seq<u8>,
    value1: Seq<u8>,
    proof1: Seq<u8>,
    root2: u64,
    path2: Seq<u8>,
    value2: Seq<u8>,
    proof2: Seq<u8>,
)
    requires
        root1 == root2,
        path1 == path2,
        value1 == value2,
        proof1 == proof2,
    ensures
        membership_verdict(root1, path1, value1, proof1) == membership_verdict(
            root2,
            path2,
            value2,
            proof2,
        ),
        non_membership_verdict(root1, path1, proof1) == non_membership_verdict(
            root2,
            path2,
            proof2,
        ),
{
}

/// No false accept: a well-shaped membership proof whose fold commits to a
/// root different from the one supplied is rejected as `ProofInvalid`,
/// while the root it does commit to accepts it.
pub proof fn lemma_no_false_accept(
    supplied_root: u64,
    proven_root: u64,
    path: Seq<u8>,
    value: Seq<u8>,
    proof: Seq<u8>,
)
    requires
        path.len() > 0,
        proof_shape_ok(proof),
        fold_steps(digest64(membership_leaf(path, value)), proof) == proven_root,
        supplied_root != proven_root,
    ensures
        membership_verdict(proven_root, path, value, proof) == Ok::<(), LightClientError>(()),
        membership_verdict(supplied_root, path, value, proof) == Err::<(), LightClientError>(
            LightClientError::ProofInvalid,
        ),
{
}

} // verus!
