//! The misbehaviour detector: decides whether two headers, each
//! independently provable against a common trusted consensus state,
//! constitute provable misbehaviour of the remote chain.
//!
//! Two shapes of evidence are recognised: a fork (two headers at the same
//! height with different commitment roots) and a time-travel violation (the
//! header at the later height carries a timestamp not after the one at the
//! earlier height). The detector never trusts an unverified claim: each
//! header's own linkage proof is checked before the conflict is judged.
use vstd::prelude::*;
use crate::errors::LightClientError;
use crate::header::{
    check_header_linked, check_header_shape, header_linked, header_shape_ok, ConsensusState, Header,
};
use crate::height::Height;

verus! {

/// Evidence of misbehaviour: two headers claiming conflicting state,
/// both to be proven against the checkpoint at `trusted_height`.
#[derive(Clone, Debug)]
pub struct MisbehaviourEvidence {
    /// The height of the trusted checkpoint both headers are proven against.
    pub trusted_height: Height,
    pub header_a: Header,
    pub header_b: Header,
}

/// Whether two verified headers conflict: a fork at one height, or a
/// later height with an earlier-or-equal timestamp.
pub open spec fn headers_conflict(a: Header, b: Header) -> bool {
    (a.height == b.height && a.new_root != b.new_root) || (a.height.lt_spec(b.height)
        && b.timestamp <= a.timestamp) || (b.height.lt_spec(a.height) && a.timestamp
        <= b.timestamp)
}

/// The detector's verdict over a trusted consensus state: an error when
/// either header is malformed or fails its own linkage proof, otherwise
/// whether the pair conflicts.
pub open spec fn detect_verdict(
    trusted: ConsensusState,
    a: Header,
    b: Header,
) -> Result<bool, LightClientError> {
    if !header_shape_ok(a) || !header_shape_ok(b) {
        Err(LightClientError::MalformedInput)
    } else if !header_linked(a, trusted) || !header_linked(b, trusted) {
        Err(LightClientError::ProofInvalid)
    } else {
        Ok(headers_conflict(a, b))
    }
}

/// Decides whether two headers conflict.
pub fn conflict_check(a: &Header, b: &Header) -> (r: bool)
    ensures
        r == headers_conflict(*a, *b),
{
    (a.height.revision_number == b.height.revision_number && a.height.revision_height
        == b.height.revision_height && a.new_root != b.new_root) || (a.height.lt(&b.height)
        && b.timestamp <= a.timestamp) || (b.height.lt(&a.height) && a.timestamp <= b.timestamp)
}

/// Checks both headers' own proofs against the trusted consensus state,
/// then judges the conflict; returns `Ok(true)` only for self-verifying
/// evidence of a fork or a time-travel violation.
pub fn detect(trusted: &ConsensusState, a: &Header, b: &Header) -> (r: Result<
    bool,
    LightClientError,
>)
    ensures
        r == detect_verdict(*trusted, *a, *b),
{
    if !check_header_shape(a) || !check_header_shape(b) {
        return Err(LightClientError::MalformedInput);
    }
    if !check_header_linked(a, trusted) || !check_header_linked(b, trusted) {
        return Err(LightClientError::ProofInvalid);
    }
    Ok(conflict_check(a, b))
}

} // verus!
