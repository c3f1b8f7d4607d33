//! The client state machine: owns the client state and the append-only,
//! height-indexed checkpoint log, and orchestrates header validation,
//! proof verification and misbehaviour detection.
//!
//! Lifecycle: `Active` accepts updates, membership queries and misbehaviour
//! evidence; proven misbehaviour freezes the client exactly once, and a
//! frozen client refuses further updates and misbehaviour submissions for
//! good. Historical proof verification against stored (pre-freeze)
//! checkpoints stays permitted on a frozen client: freezing blocks further
//! mutation of trust, not read-only checks against what was trusted before
//! the freeze. A failed call leaves the whole machine unchanged.
use vstd::prelude::*;
use crate::commitment::{
    membership_verdict, non_membership_verdict, verify_membership_proof,
    verify_non_membership_proof,
};
use crate::errors::LightClientError;
use crate::header::{
    expired, header_verdict, validate_header, ClientState, ConsensusState, Header,
};
use crate::height::Height;
use crate::misbehaviour::{detect, detect_verdict, MisbehaviourEvidence};

verus! {

/// One entry of the checkpoint log.
#[derive(Clone, Copy, Debug, PartialEq, Eq, Structural)]
pub struct Checkpoint {
    pub height: Height,
    pub consensus_state: ConsensusState,
}

/// The reported lifecycle state of a client.
#[derive(Clone, Copy, Debug, PartialEq, Eq, Structural)]
pub enum Status {
    /// The client accepts updates and queries.
    Active,
    /// Misbehaviour was proven; no further updates are accepted.
    Frozen,
    /// The latest checkpoint is older than the trusting period.
    Expired,
}

/// Metadata of one checkpoint, for bootstrapping a successor client.
#[derive(Clone, Copy, Debug, PartialEq, Eq, Structural)]
pub struct ConsensusMeta {
    pub height: Height,
    pub timestamp: u64,
}

/// The state machine of one client identifier.
pub struct ClientStateMachine {
    pub client_state: ClientState,
    /// Append-only log of trusted checkpoints, in the order accepted.
    pub checkpoints: Vec<Checkpoint>,
}

/// Linear scan of a checkpoint log for a height.
pub open spec fn find_in(s: Seq<Checkpoint>, h: Height) -> Option<ConsensusState>
    decreases s.len(),
{
    if s.len() == 0 {
        None
    } else if s[0].height == h {
        Some(s[0].consensus_state)
    } else {
        find_in(s.skip(1), h)
    }
}

impl ClientStateMachine {
    /// Well-formedness: the log is non-empty with strictly increasing,
    /// valid heights; the latest trusted height is the last entry's; the
    /// trusting period is positive; a frozen height, when set, is valid.
    pub open spec fn wf(self) -> bool {
        &&& self.checkpoints@.len() > 0
        &&& forall|i: int, j: int|
            0 <= i < j < self.checkpoints@.len() ==> #[trigger] self.checkpoints@[i].height.lt_spec(
                #[trigger] self.checkpoints@[j].height,
            )
        &&& forall|i: int|
            0 <= i < self.checkpoints@.len() ==> (#[trigger] self.checkpoints@[i].height).valid()
        &&& self.client_state.latest_height == self.checkpoints@.last().height
        &&& self.client_state.trusting_period > 0
        &&& match self.client_state.frozen_height {
            Some(h) => h.valid(),
            None => true,
        }
    }

    /// Whether the client was frozen by proven misbehaviour.
    pub open spec fn is_frozen(self) -> bool {
        self.client_state.frozen_height is Some
    }

    /// The checkpoint log as a sequence.
    pub open spec fn log(self) -> Seq<Checkpoint> {
        self.checkpoints@
    }

    /// The stored consensus state at a height, if any.
    pub open spec fn lookup(self, h: Height) -> Option<ConsensusState> {
        find_in(self.checkpoints@, h)
    }

    /// The verdict of an update: a frozen client refuses, a height not
    /// strictly above the latest trusted height is non-monotonic, and
    /// otherwise the header validator decides against the latest
    /// checkpoint.
    pub open spec fn update_verdict(self, h: Header, now: u64) -> Result<
        ConsensusState,
        LightClientError,
    > {
        if self.is_frozen() {
            Err(LightClientError::ClientFrozen)
        } else if !self.client_state.latest_height.lt_spec(h.height) {
            Err(LightClientError::NonMonotonicHeight)
        } else {
            header_verdict(
                self.checkpoints@.last().consensus_state,
                self.client_state.trusting_period,
                self.client_state.max_clock_drift,
                h,
                now,
            )
        }
    }

    /// The verdict of misbehaviour evidence: a frozen client refuses; the
    /// trusted ancestor must be stored and unexpired; then the detector
    /// decides over the two headers' own proofs.
    pub open spec fn misbehaviour_verdict(self, ev: MisbehaviourEvidence, now: u64) -> Result<
        bool,
        LightClientError,
    > {
        if self.is_frozen() {
            Err(LightClientError::ClientFrozen)
        } else {
            match find_in(self.checkpoints@, ev.trusted_height) {
                None => Err(LightClientError::HeightNotFound),
                Some(trusted) => {
                    if expired(trusted, self.client_state.trusting_period, now) {
                        Err(LightClientError::ConsensusStateExpired)
                    } else {
                        detect_verdict(trusted, ev.header_a, ev.header_b)
                    }
                },
            }
        }
    }

    /// The verdict of a membership query at a stored height. Deliberately
    /// independent of the frozen height: historical verification stays
    /// available after a freeze.
    pub open spec fn membership_query_verdict(
        self,
        height: Height,
        path: Seq<u8>,
        value: Seq<u8>,
        proof: Seq<u8>,
        now: u64,
    ) -> Result<(), LightClientError> {
        match find_in(self.checkpoints@, height) {
            None => Err(LightClientError::HeightNotFound),
            Some(cs) => {
                if expired(cs, self.client_state.trusting_period, now) {
                    Err(LightClientError::ConsensusStateExpired)
                } else {
                    membership_verdict(cs.root, path, value, proof)
                }
            },
        }
    }

    /// The verdict of a non-membership query at a stored height; like the
    /// membership verdict, independent of the frozen height.
    pub open spec fn non_membership_query_verdict(
        self,
        height: Height,
        path: Seq<u8>,
        proof: Seq<u8>,
        now: u64,
    ) -> Result<(), LightClientError> {
        match find_in(self.checkpoints@, height) {
            None => Err(LightClientError::HeightNotFound),
            Some(cs) => {
                if expired(cs, self.client_state.trusting_period, now) {
                    Err(LightClientError::ConsensusStateExpired)
                } else {
                    non_membership_verdict(cs.root, path, proof)
                }
            },
        }
    }

    /// The reported status: frozen wins, then expiry of the latest
    /// checkpoint, else active.
    pub open spec fn status_spec(self, now: u64) -> Status {
        if self.is_frozen() {
            Status::Frozen
        } else if expired(
            self.checkpoints@.last().consensus_state,
            self.client_state.trusting_period,
            now,
        ) {
            Status::Expired
        } else {
            Status::Active
        }
    }

    /// Seeds a client at its initial checkpoint.
    ///
    /// Refused when the client identifier was already instantiated, when
    /// the trusting period is zero, or when the initial height is invalid.
    pub fn instantiate(
        already_initialized: bool,
        trusting_period: u64,
        max_clock_drift: u64,
        initial_height: Height,
        initial_consensus_state: ConsensusState,
    ) -> (r: Result<ClientStateMachine, LightClientError>)
        ensures
            already_initialized ==> (r matches Err(e)
                && e == LightClientError::AlreadyInitialized),
            !already_initialized && (trusting_period == 0 || !initial_height.valid()) ==> (r
                matches Err(e) && e == LightClientError::MalformedInput),
            !already_initialized && trusting_period > 0 && initial_height.valid() ==> (r matches
                Ok(m) && m.wf() && m.log() =~= seq![
                (Checkpoint { height: initial_height, consensus_state: initial_consensus_state }),
            ] && m.client_state.latest_height == initial_height && !m.is_frozen()
                && m.client_state.trusting_period == trusting_period
                && m.client_state.max_clock_drift == max_clock_drift),
    {
        if already_initialized {
            return Err(LightClientError::AlreadyInitialized);
        }
        if trusting_period == 0 || initial_height.revision_height == 0 {
            return Err(LightClientError::MalformedInput);
        }
        let mut checkpoints: Vec<Checkpoint> = Vec::new();
        checkpoints.push(
            Checkpoint { height: initial_height, consensus_state: initial_consensus_state },
        );
        let m = ClientStateMachine {
            client_state: ClientState {
                trusting_period,
                max_clock_drift,
                latest_height: initial_height,
                frozen_height: None,
            },
            checkpoints,
        };
        Ok(m)
    }

    /// Looks up the stored consensus state at a height.
    pub fn find_checkpoint(&self, height: &Height) -> (r: Option<ConsensusState>)
        ensures
            r == self.lookup(*height),
    {
        let mut i: usize = 0;
        proof {
            assert(self.checkpoints@.skip(0) =~= self.checkpoints@);
        }
        while i < self.checkpoints.len()
            invariant
                i <= self.checkpoints@.len(),
                find_in(self.checkpoints@.skip(i as int), *height) == find_in(
                    self.checkpoints@,
                    *height,
                ),
            decreases self.checkpoints@.len() - i,
        {
            let c = self.checkpoints[i];
            proof {
                assert(self.checkpoints@.skip(i as int)[0] == self.checkpoints@[i as int]);
                assert(self.checkpoints@.skip(i as int).skip(1) =~= self.checkpoints@.skip(
                    i as int + 1,
                ));
            }
            if c.height.revision_number == height.revision_number && c.height.revision_height
                == height.revision_height {
                return Some(c.consensus_state);
            }
            i = i + 1;
        }
        proof {
            assert(self.checkpoints@.skip(self.checkpoints@.len() as int) =~= Seq::<
                Checkpoint,
            >::empty());
        }
        None
    }

    /// Applies a header update: on success appends the new checkpoint and
    /// advances the latest trusted height; on any failure the machine is
    /// unchanged. The frozen height is never changed by an update.
    ///
    /// Accepted heights are strictly increasing, so a replay of an
    /// already-accepted header is detected and rejected as non-monotonic
    /// rather than silently overwriting the stored checkpoint.
    pub fn update_state(&mut self, h: &Header, now: u64) -> (r: Result<Height, LightClientError>)
        requires
            old(self).wf(),
        ensures
            final(self).wf(),
            final(self).client_state.frozen_height == old(self).client_state.frozen_height,
            match old(self).update_verdict(*h, now) {
                Ok(cs) => {
                    &&& r matches Ok(ht) && ht == h.height
                    &&& final(self).log() =~= old(self).log().push(
                        (Checkpoint { height: h.height, consensus_state: cs }),
                    )
                    &&& final(self).client_state.latest_height == h.height
                    &&& final(self).client_state.trusting_period
                        == old(self).client_state.trusting_period
                    &&& final(self).client_state.max_clock_drift
                        == old(self).client_state.max_clock_drift
                },
                Err(e) => r matches Err(e2) && e2 == e && *final(self) == *old(self),
            },
    {
        if self.client_state.frozen_height.is_some() {
            return Err(LightClientError::ClientFrozen);
        }
        if !self.client_state.latest_height.lt(&h.height) {
            return Err(LightClientError::NonMonotonicHeight);
        }
        let last_idx = self.checkpoints.len() - 1;
        let trusted = self.checkpoints[last_idx].consensus_state;
        let new_cs = match validate_header(
            &trusted,
            self.client_state.trusting_period,
            self.client_state.max_clock_drift,
            h,
            now,
        ) {
            Err(e) => {
                return Err(e);
            },
            Ok(cs) => cs,
        };
        proof {
            let s = self.checkpoints@;
            assert(h.height.valid());
            assert forall|i: int|
                0 <= i < s.len() implies #[trigger] s[i].height.lt_spec(h.height) by {
                if i < s.len() - 1 {
                    assert(s[i].height.lt_spec(s[s.len() - 1].height));
                    crate::height::lemma_height_order_transitive(
                        s[i].height,
                        s[s.len() - 1].height,
                        h.height,
                    );
                }
            }
        }
        self.checkpoints.push(Checkpoint { height: h.height, consensus_state: new_cs });
        self.client_state.latest_height = h.height;
        Ok(h.height)
    }

    /// Submits misbehaviour evidence: when the evidence is self-verifying
    /// and conflicting, freezes the client at the lower of the two
    /// implicated heights; in every other case the machine is unchanged.
    pub fn submit_misbehaviour(&mut self, ev: &MisbehaviourEvidence, now: u64) -> (r: Result<
        bool,
        LightClientError,
    >)
        requires
            old(self).wf(),
        ensures
            final(self).wf(),
            r == old(self).misbehaviour_verdict(*ev, now),
            r == Ok::<bool, LightClientError>(true) ==> {
                &&& final(self).client_state.frozen_height == Some(
                    if ev.header_a.height.lt_spec(ev.header_b.height) {
                        ev.header_a.height
                    } else {
                        ev.header_b.height
                    },
                )
                &&& final(self).log() == old(self).log()
                &&& final(self).client_state.latest_height
                    == old(self).client_state.latest_height
                &&& final(self).client_state.trusting_period
                    == old(self).client_state.trusting_period
                &&& final(self).client_state.max_clock_drift
                    == old(self).client_state.max_clock_drift
            },
            r != Ok::<bool, LightClientError>(true) ==> *final(self) == *old(self),
    {
        if self.client_state.frozen_height.is_some() {
            return Err(LightClientError::ClientFrozen);
        }
        let trusted = match self.find_checkpoint(&ev.trusted_height) {
            None => {
                return Err(LightClientError::HeightNotFound);
            },
            Some(cs) => cs,
        };
        if now >= trusted.timestamp && now - trusted.timestamp >= self.client_state.trusting_period {
            return Err(LightClientError::ConsensusStateExpired);
        }
        let found = match detect(&trusted, &ev.header_a, &ev.header_b) {
            Err(e) => {
                return Err(e);
            },
            Ok(f) => f,
        };
        if found {
            let frozen_at = ev.header_a.height.min_of(&ev.header_b.height);
            self.client_state.frozen_height = Some(frozen_at);
            proof {
                assert(final(self).client_state.frozen_height matches Some(fh) && fh.valid()) by {
                    assert(detect_verdict(trusted, ev.header_a, ev.header_b) is Ok);
                }
            }
        }
        Ok(found)
    }

    /// Judges misbehaviour evidence without mutating the client.
    pub fn check_for_misbehaviour(&self, ev: &MisbehaviourEvidence, now: u64) -> (r: Result<
        bool,
        LightClientError,
    >)
        requires
            self.wf(),
        ensures
            r == self.misbehaviour_verdict(*ev, now),
    {
        if self.client_state.frozen_height.is_some() {
            return Err(LightClientError::ClientFrozen);
        }
        let trusted = match self.find_checkpoint(&ev.trusted_height) {
            None => {
                return Err(LightClientError::HeightNotFound);
            },
            Some(cs) => cs,
        };
        if now >= trusted.timestamp && now - trusted.timestamp >= self.client_state.trusting_period {
            return Err(LightClientError::ConsensusStateExpired);
        }
        detect(&trusted, &ev.header_a, &ev.header_b)
    }

    /// Verifies a membership claim against the checkpoint at `height`.
    pub fn verify_membership(
        &self,
        height: &Height,
        path: &Vec<u8>,
        value: &Vec<u8>,
        proof: &Vec<u8>,
        now: u64,
    ) -> (r: Result<(), LightClientError>)
        ensures
            r == self.membership_query_verdict(*height, path@, value@, proof@, now),
    {
        let cs = match self.find_checkpoint(height) {
            None => {
                return Err(LightClientError::HeightNotFound);
            },
            Some(cs) => cs,
        };
        if now >= cs.timestamp && now - cs.timestamp >= self.client_state.trusting_period {
            return Err(LightClientError::ConsensusStateExpired);
        }
        verify_membership_proof(cs.root, path, value, proof)
    }

    /// Verifies a non-membership claim against the checkpoint at `height`.
    pub fn verify_non_membership(
        &self,
        height: &Height,
        path: &Vec<u8>,
        proof: &Vec<u8>,
        now: u64,
    ) -> (r: Result<(), LightClientError>)
        ensures
            r == self.non_membership_query_verdict(*height, path@, proof@, now),
    {
        let cs = match self.find_checkpoint(height) {
            None => {
                return Err(LightClientError::HeightNotFound);
            },
            Some(cs) => cs,
        };
        if now >= cs.timestamp && now - cs.timestamp >= self.client_state.trusting_period {
            return Err(LightClientError::ConsensusStateExpired);
        }
        verify_non_membership_proof(cs.root, path, proof)
    }

    /// Reports the lifecycle status at host time `now`.
    pub fn status(&self, now: u64) -> (r: Status)
        requires
            self.wf(),
        ensures
            r == self.status_spec(now),
    {
        if self.client_state.frozen_height.is_some() {
            return Status::Frozen;
        }
        let last_idx = self.checkpoints.len() - 1;
        let latest = self.checkpoints[last_idx].consensus_state;
        if now >= latest.timestamp && now - latest.timestamp >= self.client_state.trusting_period {
            Status::Expired
        } else {
            Status::Active
        }
    }

    /// Returns the timestamp of the checkpoint at `height`; the call
    /// fails, with `HeightNotFound`, exactly when no checkpoint was ever
    /// stored at that height.
    pub fn timestamp_at_height(&self, height: &Height) -> (r: Result<u64, LightClientError>)
        ensures
            r == match self.lookup(*height) {
                Some(cs) => Ok::<u64, LightClientError>(cs.timestamp),
                None => Err::<u64, LightClientError>(LightClientError::HeightNotFound),
            },
            r is Err <==> (forall|i: int|
                0 <= i < self.log().len() ==> (#[trigger] self.log()[i]).height != *height),
            r matches Ok(ts) ==> exists|i: int|
                0 <= i < self.log().len() && (#[trigger] self.log()[i]).height == *height
                    && self.log()[i].consensus_state.timestamp == ts,
    {
        proof {
            lemma_find_in_characterisation(self.checkpoints@, *height);
            assert(self.log() == self.checkpoints@);
            assert((find_in(self.checkpoints@, *height) is None) <==> (forall|i: int|
                0 <= i < self.checkpoints@.len() ==> (#[trigger] self.checkpoints@[i]).height
                    != *height));
        }
        match self.find_checkpoint(height) {
            Some(cs) => Ok(cs.timestamp),
            None => Err(LightClientError::HeightNotFound),
        }
    }

    /// Exports the heights and timestamps of all checkpoints, in the order
    /// they were accepted, for bootstrapping a successor client.
    pub fn export_metadata(&self) -> (r: Vec<ConsensusMeta>)
        ensures
            r@.len() == self.log().len(),
            forall|i: int|
                0 <= i < r@.len() ==> #[trigger] r@[i] == (ConsensusMeta {
                    height: self.log()[i].height,
                    timestamp: self.log()[i].consensus_state.timestamp,
                }),
    {
        let mut out: Vec<ConsensusMeta> = Vec::new();
        let mut i: usize = 0;
        while i < self.checkpoints.len()
            invariant
                i <= self.checkpoints@.len(),
                out@.len() == i,
                forall|j: int|
                    0 <= j < i ==> #[trigger] out@[j] == (ConsensusMeta {
                        height: self.checkpoints@[j].height,
                        timestamp: self.checkpoints@[j].consensus_state.timestamp,
                    }),
            decreases self.checkpoints@.len() - i,
        {
            let c = self.checkpoints[i];
            out.push(ConsensusMeta { height: c.height, timestamp: c.consensus_state.timestamp });
            i = i + 1;
        }
        out
    }
}

/// The scan of the checkpoint log is exact: it fails exactly when no
/// entry carries the height, and what it returns is the consensus state
/// of an entry at that height.
pub proof fn lemma_find_in_characterisation(s: Seq<Checkpoint>, h: Height)
    ensures
        (find_in(s, h) is None) <==> (forall|i: int|
            0 <= i < s.len() ==> (#[trigger] s[i]).height != h),
        find_in(s, h) matches Some(cs) ==> exists|i: int|
            0 <= i < s.len() && (#[trigger] s[i]).height == h && s[i].consensus_state == cs,
    decreases s.len(),
{
    if s.len() == 0 {
    } else if s[0].height == h {
    } else {
        let t = s.skip(1);
        lemma_find_in_characterisation(t, h);
        assert(forall|i: int| 0 <= i < t.len() ==> #[trigger] t[i] == s[i + 1]);
        if find_in(s, h) is None {
            assert forall|i: int| 0 <= i < s.len() implies (#[trigger] s[i]).height != h by {
                if i > 0 {
                    assert(t[i - 1] == s[i]);
                }
            }
        } else {
            let cs = find_in(s, h)->Some_0;
            let j = choose|j: int|
                0 <= j < t.len() && (#[trigger] t[j]).height == h && t[j].consensus_state == cs;
            assert(s[j + 1].height == h && s[j + 1].consensus_state == cs);
        }
    }
}

/// Monotonicity: after an update succeeds with a header at some height,
/// any later update whose height is not strictly greater is rejected as
/// non-monotonic, whatever its other contents and whatever the host time.
pub proof fn lemma_update_monotonic(
    before: ClientStateMachine,
    h1: Header,
    now1: u64,
    after: ClientStateMachine,
    h2: Header,
    now2: u64,
)
    requires
        before.update_verdict(h1, now1) is Ok,
        after.client_state.latest_height == h1.height,
        after.client_state.frozen_height == before.client_state.frozen_height,
        h2.height.le_spec(h1.height),
    ensures
        after.update_verdict(h2, now2) == Err::<ConsensusState, LightClientError>(
            LightClientError::NonMonotonicHeight,
        ),
{
    crate::height::lemma_height_order_total(h2.height, h1.height);
}

/// Freeze irreversibility, refusal half: a frozen client rejects every
/// update and every misbehaviour submission with `ClientFrozen`.
pub proof fn lemma_frozen_rejects_mutation(
    m: ClientStateMachine,
    h: Header,
    ev: MisbehaviourEvidence,
    now: u64,
)
    requires
        m.is_frozen(),
    ensures
        m.update_verdict(h, now) == Err::<ConsensusState, LightClientError>(
            LightClientError::ClientFrozen,
        ),
        m.misbehaviour_verdict(ev, now) == Err::<bool, LightClientError>(
            LightClientError::ClientFrozen,
        ),
{
}

/// Freeze irreversibility, read-only half: the verdict of a membership or
/// non-membership query does not depend on the frozen height, so proofs
/// against pre-freeze checkpoints verify on a frozen client exactly as
/// they did before the freeze.
pub proof fn lemma_frozen_allows_historical_verification(
    m1: ClientStateMachine,
    m2: ClientStateMachine,
    height: Height,
    path: Seq<u8>,
    value: Seq<u8>,
    proof: Seq<u8>,
    now: u64,
)
    requires
        m1.log() == m2.log(),
        m1.client_state.trusting_period == m2.client_state.trusting_period,
    ensures
        m1.membership_query_verdict(height, path, value, proof, now)
            == m2.membership_query_verdict(height, path, value, proof, now),
        m1.non_membership_query_verdict(height, path, proof, now)
            == m2.non_membership_query_verdict(height, path, proof, now),
{
}

} // verus!
