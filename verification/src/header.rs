//! Consensus-state checkpoints, client parameters, untrusted headers, and
//! the header validator.
//!
//! A header is untrusted input. It is accepted only when its timestamp is
//! consistent with the trusted consensus state and the host time, it is
//! structurally well formed, its claims are committed under the trusted
//! consensus state's validator commitment, and the trusted basis has not
//! outlived the trusting period. The checks run in that order and stop at
//! the first failure.
use vstd::prelude::*;
use crate::bytes::{digest64, u64_be};
use crate::commitment::{fold_steps, fold_proof, proof_shape_ok};
use crate::errors::LightClientError;
use crate::height::Height;

verus! {

/// A trusted consensus-state checkpoint of the remote chain.
#[derive(Clone, Copy, Debug, PartialEq, Eq, Structural)]
pub struct ConsensusState {
    /// The commitment root of the remote chain's state at this height.
    pub root: u64,
    /// The block timestamp, in nanoseconds.
    pub timestamp: u64,
    /// The commitment the next accepted header must be provable against.
    pub next_validators: u64,
}

/// The verification parameters and lifecycle data of one client.
#[derive(Clone, Copy, Debug)]
pub struct ClientState {
    /// Maximum age, in nanoseconds, of a checkpoint still usable as a basis
    /// of trust.
    pub trusting_period: u64,
    /// Maximum lead, in nanoseconds, of a header's timestamp over the host
    /// time.
    pub max_clock_drift: u64,
    /// The highest trusted height.
    pub latest_height: Height,
    /// Set exactly when misbehaviour was proven; never cleared.
    pub frozen_height: Option<Height>,
}

/// An untrusted header submitted for a client update.
#[derive(Clone, Debug)]
pub struct Header {
    /// The claimed height.
    pub height: Height,
    /// The claimed block timestamp, in nanoseconds.
    pub timestamp: u64,
    /// The claimed new commitment root.
    pub new_root: u64,
    /// The claimed commitment for the validators of the next block.
    pub next_validators: u64,
    /// Witness that the header's claims are committed under the trusted
    /// consensus state's validator commitment.
    pub validity_proof: Vec<u8>,
}

/// Leaf bytes committing to all claims of a header.
pub open spec fn header_leaf(h: Header) -> Seq<u8> {
    seq![2u8] + u64_be(h.height.revision_number) + u64_be(h.height.revision_height) + u64_be(
        h.timestamp,
    ) + u64_be(h.new_root) + u64_be(h.next_validators)
}

/// Structural well-formedness of a header: a valid height and proof bytes
/// of whole steps.
pub open spec fn header_shape_ok(h: Header) -> bool {
    h.height.valid() && proof_shape_ok(h.validity_proof@)
}

/// Cryptographic linkage: the header's claims fold to the trusted
/// consensus state's validator commitment.
pub open spec fn header_linked(h: Header, trusted: ConsensusState) -> bool {
    fold_steps(digest64(header_leaf(h)), h.validity_proof@) == trusted.next_validators
}

/// Whether a checkpoint is older than the trusting period at host time `now`.
pub open spec fn expired(cs: ConsensusState, trusting_period: u64, now: u64) -> bool {
    now >= cs.timestamp + trusting_period
}

/// The consensus state a header produces when accepted.
pub open spec fn consensus_from_header(h: Header) -> ConsensusState {
    ConsensusState { root: h.new_root, timestamp: h.timestamp, next_validators: h.next_validators }
}

/// The validator's verdict, with checks in order, stopping at the first
/// failure: timestamp sanity, structural shape, cryptographic linkage,
/// then freshness of the trusted basis.
pub open spec fn header_verdict(
    trusted: ConsensusState,
    trusting_period: u64,
    max_clock_drift: u64,
    h: Header,
    now: u64,
) -> Result<ConsensusState, LightClientError> {
    if h.timestamp < trusted.timestamp {
        Err(LightClientError::NonMonotonicHeight)
    } else if h.timestamp > now + max_clock_drift {
        Err(LightClientError::ClockDriftExceeded)
    } else if !header_shape_ok(h) {
        Err(LightClientError::MalformedInput)
    } else if !header_linked(h, trusted) {
        Err(LightClientError::ProofInvalid)
    } else if expired(trusted, trusting_period, now) {
        Err(LightClientError::ConsensusStateExpired)
    } else {
        Ok(consensus_from_header(h))
    }
}

/// Computes the digest of a header's leaf; an empty validity proof
/// witnesses this digest as the validator commitment itself.
pub fn header_commitment(h: &Header) -> (r: u64)
    ensures
        r == digest64(header_leaf(*h)),
{
    let mut bytes: Vec<u8> = Vec::new();
    bytes.push(2u8);
    crate::bytes::push_u64_be(&mut bytes, h.height.revision_number);
    crate::bytes::push_u64_be(&mut bytes, h.height.revision_height);
    crate::bytes::push_u64_be(&mut bytes, h.timestamp);
    crate::bytes::push_u64_be(&mut bytes, h.new_root);
    crate::bytes::push_u64_be(&mut bytes, h.next_validators);
    proof {
        assert(bytes@ =~= header_leaf(*h));
    }
    crate::bytes::digest_of(&bytes)
}

/// Decides the structural well-formedness of a header.
pub fn check_header_shape(h: &Header) -> (r: bool)
    ensures
        r == header_shape_ok(*h),
{
    h.height.revision_height != 0 && h.validity_proof.len() % 9 == 0
}

/// Decides the cryptographic linkage of a well-shaped header to the
/// trusted consensus state.
pub fn check_header_linked(h: &Header, trusted: &ConsensusState) -> (r: bool)
    requires
        header_shape_ok(*h),
    ensures
        r == header_linked(*h, *trusted),
{
    let leaf = header_commitment(h);
    let folded = fold_proof(leaf, &h.validity_proof);
    folded == trusted.next_validators
}

/// Checks a header's structural shape, then its cryptographic linkage to
/// the trusted consensus state.
pub fn check_header_linkage(h: &Header, trusted: &ConsensusState) -> (r: Result<
    (),
    LightClientError,
>)
    ensures
        r == (if !header_shape_ok(*h) {
            Err::<(), LightClientError>(LightClientError::MalformedInput)
        } else if !header_linked(*h, *trusted) {
            Err::<(), LightClientError>(LightClientError::ProofInvalid)
        } else {
            Ok::<(), LightClientError>(())
        }),
{
    if !check_header_shape(h) {
        return Err(LightClientError::MalformedInput);
    }
    if !check_header_linked(h, trusted) {
        return Err(LightClientError::ProofInvalid);
    }
    Ok(())
}

/// Validates an untrusted header against a trusted consensus state, per
/// the validator's verdict; on success returns the consensus state to be
/// checkpointed at the header's height.
pub fn validate_header(
    trusted: &ConsensusState,
    trusting_period: u64,
    max_clock_drift: u64,
    h: &Header,
    now: u64,
) -> (r: Result<ConsensusState, LightClientError>)
    ensures
        r == header_verdict(*trusted, trusting_period, max_clock_drift, *h, now),
{
    if h.timestamp < trusted.timestamp {
        return Err(LightClientError::NonMonotonicHeight);
    }
    if h.timestamp > now && h.timestamp - now > max_clock_drift {
        return Err(LightClientError::ClockDriftExceeded);
    }
    match check_header_linkage(h, trusted) {
        Err(e) => {
            return Err(e);
        },
        Ok(()) => {},
    }
    if now >= trusted.timestamp && now - trusted.timestamp >= trusting_period {
        return Err(LightClientError::ConsensusStateExpired);
    }
    Ok(
        ConsensusState {
            root: h.new_root,
            timestamp: h.timestamp,
            next_validators: h.next_validators,
        },
    )
}

} // verus!
