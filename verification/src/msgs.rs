//! The host-facing request/response types and the dispatch entry points:
//! a tagged union of request variants, each routed to the matching state
//! machine operation.
//!
//! The host serialises calls per client, performs storage and wire I/O
//! itself, and hands this module plain values.
use vstd::prelude::*;
use crate::errors::LightClientError;
use crate::header::Header;
use crate::height::Height;
use crate::machine::{Checkpoint, ClientStateMachine, ConsensusMeta, Status};
use crate::misbehaviour::MisbehaviourEvidence;

verus! {

/// A membership claim to verify at a stored height.
pub struct VerifyMembershipMsg {
    pub height: Height,
    pub path: Vec<u8>,
    pub value: Vec<u8>,
    pub proof: Vec<u8>,
}

/// A non-membership claim to verify at a stored height.
pub struct VerifyNonMembershipMsg {
    pub height: Height,
    pub path: Vec<u8>,
    pub proof: Vec<u8>,
}

/// A header submitted to advance the client.
pub struct UpdateStateMsg {
    pub header: Header,
}

/// Misbehaviour evidence submitted to freeze the client.
pub struct UpdateStateOnMisbehaviourMsg {
    pub evidence: MisbehaviourEvidence,
}

/// An upgrade request; the upgrade path is not configured, so the payload
/// stays opaque and the request is refused as unsupported.
pub struct VerifyUpgradeAndUpdateStateMsg {
    pub payload: Vec<u8>,
}

/// A store-migration request; intentionally not offered.
pub struct MigrateClientStoreMsg {
    pub payload: Vec<u8>,
}

/// The state-changing requests of the host.
pub enum SudoMsg {
    VerifyMembership(VerifyMembershipMsg),
    VerifyNonMembership(VerifyNonMembershipMsg),
    UpdateState(UpdateStateMsg),
    UpdateStateOnMisbehaviour(UpdateStateOnMisbehaviourMsg),
    VerifyUpgradeAndUpdateState(VerifyUpgradeAndUpdateStateMsg),
    MigrateClientStore(MigrateClientStoreMsg),
}

/// The heights newly trusted by a successful update.
pub struct UpdateStateResult {
    pub heights: Vec<Height>,
}

/// The result data of a successful sudo request.
pub enum SudoResult {
    VerifyMembership,
    VerifyNonMembership,
    UpdateState(UpdateStateResult),
    UpdateStateOnMisbehaviour,
}

/// A client message: either a header or misbehaviour evidence; queries
/// dispatch on its shape.
pub enum ClientMessage {
    Header(Header),
    Misbehaviour(MisbehaviourEvidence),
}

/// The read-only requests of the host.
pub enum QueryMsg {
    VerifyClientMessage(ClientMessage),
    CheckForMisbehaviour(MisbehaviourEvidence),
    TimestampAtHeight(Height),
    Status,
    ExportMetadata,
}

pub struct CheckForMisbehaviourResult {
    pub found_misbehaviour: bool,
}

pub struct TimestampAtHeightResult {
    /// Nanoseconds.
    pub timestamp: u64,
}

pub struct StatusResult {
    pub status: Status,
}

/// The result data of a successful query.
pub enum QueryResult {
    VerifyClientMessage,
    CheckForMisbehaviour(CheckForMisbehaviourResult),
    TimestampAtHeight(TimestampAtHeightResult),
    Status(StatusResult),
    ExportMetadata(Vec<ConsensusMeta>),
}

/// An execute request; the client offers no execute operations.
pub struct ExecuteMsg {
    pub payload: Vec<u8>,
}

/// The verdict of `verify_client_message`: a header is valid when an
/// update with it would succeed; misbehaviour evidence is valid when it
/// proves a conflict, and evidence that verifies but shows none is
/// reported as `ProofInvalid`.
pub open spec fn client_message_verdict(
    m: ClientStateMachine,
    msg: ClientMessage,
    now: u64,
) -> Result<(), LightClientError> {
    match msg {
        ClientMessage::Header(h) => match m.update_verdict(h, now) {
            Ok(_) => Ok(()),
            Err(e) => Err(e),
        },
        ClientMessage::Misbehaviour(ev) => match m.misbehaviour_verdict(ev, now) {
            Ok(true) => Ok(()),
            Ok(false) => Err(LightClientError::ProofInvalid),
            Err(e) => Err(e),
        },
    }
}

/// Checks a client message for validity without mutating the client.
pub fn verify_client_message(m: &ClientStateMachine, msg: &ClientMessage, now: u64) -> (r: Result<
    (),
    LightClientError,
>)
    requires
        m.wf(),
    ensures
        r == client_message_verdict(*m, *msg, now),
{
    match msg {
        ClientMessage::Header(h) => {
            if m.client_state.frozen_height.is_some() {
                return Err(LightClientError::ClientFrozen);
            }
            if !m.client_state.latest_height.lt(&h.height) {
                return Err(LightClientError::NonMonotonicHeight);
            }
            let last_idx = m.checkpoints.len() - 1;
            let trusted = m.checkpoints[last_idx].consensus_state;
            match crate::header::validate_header(
                &trusted,
                m.client_state.trusting_period,
                m.client_state.max_clock_drift,
                h,
                now,
            ) {
                Ok(_) => Ok(()),
                Err(e) => Err(e),
            }
        },
        ClientMessage::Misbehaviour(ev) => {
            match m.check_for_misbehaviour(ev, now) {
                Ok(true) => Ok(()),
                Ok(false) => Err(LightClientError::ProofInvalid),
                Err(e) => Err(e),
            }
        },
    }
}

/// Routes a state-changing request to the matching operation. On any
/// failure the machine is left unchanged; upgrade and store migration are
/// intentionally not offered.
pub fn sudo(m: &mut ClientStateMachine, msg: SudoMsg, now: u64) -> (r: Result<
    SudoResult,
    LightClientError,
>)
    requires
        old(m).wf(),
    ensures
        final(m).wf(),
        r is Err ==> *final(m) == *old(m),
        match msg {
            SudoMsg::VerifyMembership(q) => *final(m) == *old(m) && (match old(
                m,
            ).membership_query_verdict(q.height, q.path@, q.value@, q.proof@, now) {
                Ok(_) => r matches Ok(res) && res is VerifyMembership,
                Err(e) => r matches Err(e2) && e2 == e,
            }),
            SudoMsg::VerifyNonMembership(q) => *final(m) == *old(m) && (match old(
                m,
            ).non_membership_query_verdict(q.height, q.path@, q.proof@, now) {
                Ok(_) => r matches Ok(res) && res is VerifyNonMembership,
                Err(e) => r matches Err(e2) && e2 == e,
            }),
            SudoMsg::UpdateState(u) => (match old(m).update_verdict(u.header, now) {
                Ok(cs) => {
                    &&& r matches Ok(res)
                    &&& res matches SudoResult::UpdateState(ur)
                    &&& ur.heights@ =~= seq![u.header.height]
                    &&& final(m).log() =~= old(m).log().push(
                        (Checkpoint { height: u.header.height, consensus_state: cs }),
                    )
                    &&& final(m).client_state.latest_height == u.header.height
                    &&& final(m).client_state.frozen_height
                        == old(m).client_state.frozen_height
                },
                Err(e) => r matches Err(e2) && e2 == e,
            }),
            SudoMsg::UpdateStateOnMisbehaviour(s) => (match old(m).misbehaviour_verdict(
                s.evidence,
                now,
            ) {
                Ok(true) => {
                    &&& r matches Ok(res)
                    &&& res is UpdateStateOnMisbehaviour
                    &&& final(m).is_frozen()
                    &&& final(m).log() == old(m).log()
                },
                Ok(false) => r matches Err(e) && e == LightClientError::ProofInvalid,
                Err(e) => r matches Err(e2) && e2 == e,
            }),
            SudoMsg::VerifyUpgradeAndUpdateState(_) => r matches Err(e) && e
                == LightClientError::Unsupported,
            SudoMsg::MigrateClientStore(_) => r matches Err(e) && e
                == LightClientError::Unsupported,
        },
{
    match msg {
        SudoMsg::VerifyMembership(q) => {
            match m.verify_membership(&q.height, &q.path, &q.value, &q.proof, now) {
                Ok(()) => Ok(SudoResult::VerifyMembership),
                Err(e) => Err(e),
            }
        },
        SudoMsg::VerifyNonMembership(q) => {
            match m.verify_non_membership(&q.height, &q.path, &q.proof, now) {
                Ok(()) => Ok(SudoResult::VerifyNonMembership),
                Err(e) => Err(e),
            }
        },
        SudoMsg::UpdateState(u) => {
            match m.update_state(&u.header, now) {
                Ok(h) => {
                    let mut heights: Vec<Height> = Vec::new();
                    heights.push(h);
                    Ok(SudoResult::UpdateState(UpdateStateResult { heights }))
                },
                Err(e) => Err(e),
            }
        },
        SudoMsg::UpdateStateOnMisbehaviour(s) => {
            match m.submit_misbehaviour(&s.evidence, now) {
                Ok(true) => Ok(SudoResult::UpdateStateOnMisbehaviour),
                Ok(false) => Err(LightClientError::ProofInvalid),
                Err(e) => Err(e),
            }
        },
        SudoMsg::VerifyUpgradeAndUpdateState(_) => Err(LightClientError::Unsupported),
        SudoMsg::MigrateClientStore(_) => Err(LightClientError::Unsupported),
    }
}

/// Routes a read-only request to the matching operation.
pub fn query(m: &ClientStateMachine, msg: QueryMsg, now: u64) -> (r: Result<
    QueryResult,
    LightClientError,
>)
    requires
        m.wf(),
    ensures
        match msg {
            QueryMsg::VerifyClientMessage(cm) => (match client_message_verdict(*m, cm, now) {
                Ok(_) => r matches Ok(res) && res is VerifyClientMessage,
                Err(e) => r matches Err(e2) && e2 == e,
            }),
            QueryMsg::CheckForMisbehaviour(ev) => (match m.misbehaviour_verdict(ev, now) {
                Ok(found) => r matches Ok(res) && res matches QueryResult::CheckForMisbehaviour(
                    c,
                ) && c.found_misbehaviour == found,
                Err(e) => r matches Err(e2) && e2 == e,
            }),
            QueryMsg::TimestampAtHeight(h) => (match m.lookup(h) {
                Some(cs) => r matches Ok(res) && res matches QueryResult::TimestampAtHeight(t)
                    && t.timestamp == cs.timestamp,
                None => r matches Err(e) && e == LightClientError::HeightNotFound,
            }),
            QueryMsg::Status => r matches Ok(res) && res matches QueryResult::Status(s) && s.status
                == m.status_spec(now),
            QueryMsg::ExportMetadata => r matches Ok(res) && res matches QueryResult::ExportMetadata(
                v,
            ) && v@.len() == m.log().len() && (forall|i: int|
                0 <= i < v@.len() ==> #[trigger] v@[i] == (ConsensusMeta {
                    height: m.log()[i].height,
                    timestamp: m.log()[i].consensus_state.timestamp,
                })),
        },
{
    match msg {
        QueryMsg::VerifyClientMessage(cm) => {
            match verify_client_message(m, &cm, now) {
                Ok(()) => Ok(QueryResult::VerifyClientMessage),
                Err(e) => Err(e),
            }
        },
        QueryMsg::CheckForMisbehaviour(ev) => {
            match m.check_for_misbehaviour(&ev, now) {
                Ok(found) => Ok(
                    QueryResult::CheckForMisbehaviour(
                        CheckForMisbehaviourResult { found_misbehaviour: found },
                    ),
                ),
                Err(e) => Err(e),
            }
        },
        QueryMsg::TimestampAtHeight(h) => {
            match m.timestamp_at_height(&h) {
                Ok(ts) => Ok(QueryResult::TimestampAtHeight(TimestampAtHeightResult { timestamp: ts })),
                Err(e) => Err(e),
            }
        },
        QueryMsg::Status => Ok(QueryResult::Status(StatusResult { status: m.status(now) })),
        QueryMsg::ExportMetadata => Ok(QueryResult::ExportMetadata(m.export_metadata())),
    }
}

/// The execute entry point: the client offers no execute operations.
pub fn execute(_msg: &ExecuteMsg) -> (r: Result<(), LightClientError>)
    ensures
        r == Err::<(), LightClientError>(LightClientError::Unsupported),
{
    Err(LightClientError::Unsupported)
}

} // verus!
