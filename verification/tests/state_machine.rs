//! Tests of the client state machine: the update lifecycle, misbehaviour
//! and freezing, expiry, atomicity of failures, and the query operations.
use light_client::commitment::{membership_leaf_digest, node_digest};
use light_client::errors::LightClientError;
use light_client::header::{header_commitment, ConsensusState, Header};
use light_client::height::Height;
use light_client::machine::{ClientStateMachine, Status};
use light_client::misbehaviour::MisbehaviourEvidence;

fn h(revision_height: u64) -> Height {
    Height { revision_number: 0, revision_height }
}

fn step(side: u8, sibling: u64) -> Vec<u8> {
    let mut v = vec![side];
    v.extend_from_slice(&sibling.to_be_bytes());
    v
}

const TRUSTING: u64 = 1_000_000;
const DRIFT: u64 = 1_000;

/// A machine at height 1 whose next-validators commitment accepts exactly
/// the returned header at height 2.
fn machine_and_valid_header() -> (ClientStateMachine, Header) {
    let header = Header {
        height: h(2),
        timestamp: 150,
        new_root: 777,
        next_validators: 888,
        validity_proof: vec![],
    };
    let nv = header_commitment(&header);
    let initial = ConsensusState { root: 42, timestamp: 100, next_validators: nv };
    let m = ClientStateMachine::instantiate(false, TRUSTING, DRIFT, h(1), initial).unwrap();
    (m, header)
}

#[test]
fn instantiate_seeds_initial_checkpoint() {
    let initial = ConsensusState { root: 1, timestamp: 5, next_validators: 2 };
    let m = ClientStateMachine::instantiate(false, TRUSTING, DRIFT, h(1), initial).unwrap();
    assert_eq!(m.status(10), Status::Active);
    assert_eq!(m.timestamp_at_height(&h(1)), Ok(5));
    let meta = m.export_metadata();
    assert_eq!(meta.len(), 1);
    assert_eq!(meta[0].height, h(1));
    assert_eq!(meta[0].timestamp, 5);
}

#[test]
fn instantiate_twice_is_refused() {
    let initial = ConsensusState { root: 1, timestamp: 5, next_validators: 2 };
    let r = ClientStateMachine::instantiate(true, TRUSTING, DRIFT, h(1), initial);
    assert!(matches!(r, Err(LightClientError::AlreadyInitialized)));
}

#[test]
fn instantiate_rejects_bad_parameters() {
    let initial = ConsensusState { root: 1, timestamp: 5, next_validators: 2 };
    let r = ClientStateMachine::instantiate(false, 0, DRIFT, h(1), initial);
    assert!(matches!(r, Err(LightClientError::MalformedInput)));
    let r = ClientStateMachine::instantiate(false, TRUSTING, DRIFT, h(0), initial);
    assert!(matches!(r, Err(LightClientError::MalformedInput)));
}

#[test]
fn scenario_membership_at_initial_height() {
    // Instantiate at height 1 with a root committing "k" -> "v"; a
    // membership proof for that root verifies.
    let path = b"k".to_vec();
    let value = b"v".to_vec();
    let root = membership_leaf_digest(&path, &value);
    let initial = ConsensusState { root, timestamp: 100, next_validators: 3 };
    let m = ClientStateMachine::instantiate(false, TRUSTING, DRIFT, h(1), initial).unwrap();
    assert_eq!(m.verify_membership(&h(1), &path, &value, &vec![], 200), Ok(()));
}

#[test]
fn membership_at_unknown_height_is_height_not_found() {
    let initial = ConsensusState { root: 1, timestamp: 100, next_validators: 2 };
    let m = ClientStateMachine::instantiate(false, TRUSTING, DRIFT, h(1), initial).unwrap();
    assert_eq!(
        m.verify_membership(&h(9), &b"k".to_vec(), &b"v".to_vec(), &vec![], 200),
        Err(LightClientError::HeightNotFound)
    );
}

#[test]
fn valid_update_advances_latest_height() {
    let (mut m, header) = machine_and_valid_header();
    let now = 160;
    assert_eq!(m.update_state(&header, now), Ok(h(2)));
    assert_eq!(m.timestamp_at_height(&h(2)), Ok(150));
    assert_eq!(m.status(now), Status::Active);
    let meta = m.export_metadata();
    assert_eq!(meta.len(), 2);
    assert_eq!(meta[1].height, h(2));
}

#[test]
fn update_not_above_latest_height_is_non_monotonic() {
    let (mut m, header) = machine_and_valid_header();
    assert_eq!(m.update_state(&header, 160), Ok(h(2)));
    // Replaying the accepted header, or any header at or below the latest
    // trusted height, is rejected; the machine is unchanged.
    assert_eq!(m.update_state(&header, 170), Err(LightClientError::NonMonotonicHeight));
    let lower = Header { height: h(1), ..header.clone() };
    assert_eq!(m.update_state(&lower, 170), Err(LightClientError::NonMonotonicHeight));
    assert_eq!(m.export_metadata().len(), 2);
}

#[test]
fn scenario_header_timestamp_before_trusted_is_rejected() {
    // A header at height 2 whose timestamp is before height 1's timestamp
    // is rejected and the state is unchanged.
    let (mut m, header) = machine_and_valid_header();
    let stale = Header { timestamp: 50, ..header.clone() };
    let before = m.export_metadata();
    assert_eq!(m.update_state(&stale, 160), Err(LightClientError::NonMonotonicHeight));
    assert_eq!(m.export_metadata(), before);
    assert_eq!(m.status(160), Status::Active);
}

#[test]
fn update_beyond_clock_drift_is_rejected() {
    let (mut m, header) = machine_and_valid_header();
    let hasty = Header { timestamp: 150 + TRUSTING, ..header.clone() };
    assert_eq!(m.update_state(&hasty, 140), Err(LightClientError::ClockDriftExceeded));
}

#[test]
fn update_with_invalid_height_is_malformed() {
    let (mut m, header) = machine_and_valid_header();
    let bad = Header { height: Height { revision_number: 1, revision_height: 0 }, ..header.clone() };
    assert_eq!(m.update_state(&bad, 160), Err(LightClientError::MalformedInput));
}

#[test]
fn update_with_wrong_linkage_is_proof_invalid() {
    let (mut m, header) = machine_and_valid_header();
    let forged = Header { new_root: 778, ..header.clone() };
    let before = m.export_metadata();
    assert_eq!(m.update_state(&forged, 160), Err(LightClientError::ProofInvalid));
    assert_eq!(m.export_metadata(), before);
}

#[test]
fn update_on_expired_basis_is_rejected() {
    // The trusted checkpoint's timestamp is 100; far past the trusting
    // period the basis is unusable, even for a correctly linked header.
    let now = 100 + TRUSTING;
    let header = Header {
        height: h(2),
        timestamp: now,
        new_root: 777,
        next_validators: 888,
        validity_proof: vec![],
    };
    let nv = header_commitment(&header);
    let initial = ConsensusState { root: 42, timestamp: 100, next_validators: nv };
    let mut m = ClientStateMachine::instantiate(false, TRUSTING, DRIFT, h(1), initial).unwrap();
    assert_eq!(m.update_state(&header, now), Err(LightClientError::ConsensusStateExpired));
    assert_eq!(m.status(now), Status::Expired);
}

/// A machine at height 1 and two conflicting headers at height 5, each
/// independently provable against the initial consensus state.
fn forked_setup() -> (ClientStateMachine, MisbehaviourEvidence) {
    forked_setup_with_root(42)
}

/// Like `forked_setup`, with a chosen commitment root at the initial
/// checkpoint.
fn forked_setup_with_root(root: u64) -> (ClientStateMachine, MisbehaviourEvidence) {
    let mut a = Header {
        height: h(5),
        timestamp: 150,
        new_root: 1111,
        next_validators: 5,
        validity_proof: vec![],
    };
    let mut b = Header { new_root: 2222, ..a.clone() };
    let leaf_a = header_commitment(&a);
    let leaf_b = header_commitment(&b);
    let nv = node_digest(leaf_a, leaf_b);
    a.validity_proof = step(1, leaf_b);
    b.validity_proof = step(0, leaf_a);
    let initial = ConsensusState { root, timestamp: 100, next_validators: nv };
    let m = ClientStateMachine::instantiate(false, TRUSTING, DRIFT, h(1), initial).unwrap();
    let ev = MisbehaviourEvidence { trusted_height: h(1), header_a: a, header_b: b };
    (m, ev)
}

#[test]
fn scenario_fork_at_same_height_freezes_client() {
    let (mut m, ev) = forked_setup();
    assert_eq!(m.check_for_misbehaviour(&ev, 160), Ok(true));
    assert_eq!(m.submit_misbehaviour(&ev, 160), Ok(true));
    assert_eq!(m.status(160), Status::Frozen);
    assert_eq!(m.client_state.frozen_height, Some(h(5)));
}

#[test]
fn frozen_client_rejects_updates_but_still_verifies_history() {
    let path = b"k".to_vec();
    let value = b"v".to_vec();
    // Seed the initial checkpoint's root so a historical membership proof
    // exists, then freeze the client with fork evidence.
    let root = membership_leaf_digest(&path, &value);
    let (mut m, ev) = forked_setup_with_root(root);
    assert_eq!(m.submit_misbehaviour(&ev, 160), Ok(true));
    assert_eq!(m.status(160), Status::Frozen);
    // Updates and further evidence are refused for good.
    let header = Header {
        height: h(9),
        timestamp: 170,
        new_root: 1,
        next_validators: 2,
        validity_proof: vec![],
    };
    assert_eq!(m.update_state(&header, 180), Err(LightClientError::ClientFrozen));
    assert_eq!(m.submit_misbehaviour(&ev, 180), Err(LightClientError::ClientFrozen));
    // Historical verification against the pre-freeze checkpoint still works.
    assert_eq!(m.verify_membership(&h(1), &path, &value, &vec![], 200), Ok(()));
}

#[test]
fn time_travel_evidence_freezes_at_lower_height() {
    // Header at height 3 and header at height 4 whose timestamp is not
    // after height 3's: a monotonicity violation.
    let mut a = Header {
        height: h(3),
        timestamp: 200,
        new_root: 10,
        next_validators: 5,
        validity_proof: vec![],
    };
    let mut b = Header { height: h(4), timestamp: 150, new_root: 11, ..a.clone() };
    let leaf_a = header_commitment(&a);
    let leaf_b = header_commitment(&b);
    let nv = node_digest(leaf_a, leaf_b);
    a.validity_proof = step(1, leaf_b);
    b.validity_proof = step(0, leaf_a);
    let initial = ConsensusState { root: 42, timestamp: 100, next_validators: nv };
    let mut m = ClientStateMachine::instantiate(false, TRUSTING, DRIFT, h(1), initial).unwrap();
    let ev = MisbehaviourEvidence { trusted_height: h(1), header_a: a, header_b: b };
    assert_eq!(m.submit_misbehaviour(&ev, 210), Ok(true));
    assert_eq!(m.client_state.frozen_height, Some(h(3)));
}

#[test]
fn non_conflicting_evidence_leaves_client_active() {
    // Two distinct heights with increasing timestamps: no misbehaviour.
    let mut a = Header {
        height: h(3),
        timestamp: 150,
        new_root: 10,
        next_validators: 5,
        validity_proof: vec![],
    };
    let mut b = Header { height: h(4), timestamp: 200, new_root: 11, ..a.clone() };
    let leaf_a = header_commitment(&a);
    let leaf_b = header_commitment(&b);
    let nv = node_digest(leaf_a, leaf_b);
    a.validity_proof = step(1, leaf_b);
    b.validity_proof = step(0, leaf_a);
    let initial = ConsensusState { root: 42, timestamp: 100, next_validators: nv };
    let mut m = ClientStateMachine::instantiate(false, TRUSTING, DRIFT, h(1), initial).unwrap();
    let ev = MisbehaviourEvidence { trusted_height: h(1), header_a: a, header_b: b };
    assert_eq!(m.submit_misbehaviour(&ev, 210), Ok(false));
    assert_eq!(m.status(210), Status::Active);
    assert_eq!(m.client_state.frozen_height, None);
}

#[test]
fn failed_misbehaviour_submission_changes_nothing() {
    let (mut m, ev) = forked_setup();
    let before_meta = m.export_metadata();
    // Unknown trusted height.
    let bad = MisbehaviourEvidence { trusted_height: h(7), ..ev.clone() };
    assert_eq!(m.submit_misbehaviour(&bad, 160), Err(LightClientError::HeightNotFound));
    // Forged header: break one validity proof.
    let mut forged = ev.clone();
    forged.header_a.validity_proof = step(0, 123456);
    assert_eq!(m.submit_misbehaviour(&forged, 160), Err(LightClientError::ProofInvalid));
    assert_eq!(m.export_metadata(), before_meta);
    assert_eq!(m.status(160), Status::Active);
    assert_eq!(m.client_state.frozen_height, None);
}

#[test]
fn scenario_timestamp_at_unknown_height() {
    let initial = ConsensusState { root: 1, timestamp: 5, next_validators: 2 };
    let m = ClientStateMachine::instantiate(false, TRUSTING, DRIFT, h(1), initial).unwrap();
    assert_eq!(m.timestamp_at_height(&h(3)), Err(LightClientError::HeightNotFound));
}

#[test]
fn status_reports_expiry_of_latest_checkpoint() {
    let initial = ConsensusState { root: 1, timestamp: 100, next_validators: 2 };
    let m = ClientStateMachine::instantiate(false, TRUSTING, DRIFT, h(1), initial).unwrap();
    assert_eq!(m.status(100 + TRUSTING - 1), Status::Active);
    assert_eq!(m.status(100 + TRUSTING), Status::Expired);
    assert_eq!(
        m.verify_membership(&h(1), &b"k".to_vec(), &b"v".to_vec(), &vec![], 100 + TRUSTING),
        Err(LightClientError::ConsensusStateExpired)
    );
}

#[test]
fn height_construction_and_order() {
    assert_eq!(Height::new(0, 0), None);
    assert_eq!(Height::new(0, 1), Some(h(1)));
    let a = h(1);
    let b = h(2);
    assert!(a.lt(&b));
    assert!(a.le(&b));
    assert!(!b.le(&a));
    let c = Height { revision_number: 1, revision_height: 1 };
    assert!(b.lt(&c));
    assert_eq!(b.min_of(&c), b);
}
