//! Error kinds returned by the light-client core.
//!
//! Every verification failure is reported to the host as one of these typed
//! errors; none is retried internally, and a failed call leaves all client
//! state unchanged.
use vstd::prelude::*;

verus! {

/// The error kinds of the light-client core.
#[derive(Clone, Copy, Debug, PartialEq, Eq, Structural)]
pub enum LightClientError {
    /// Bad encoding or shape of an input (empty path, ill-sized proof bytes,
    /// an invalid height, a zero trusting period).
    MalformedInput,
    /// A cryptographic check failed: the proof does not commit to the claimed
    /// fact under the supplied root.
    ProofInvalid,
    /// No consensus-state checkpoint is stored at the requested height.
    HeightNotFound,
    /// The consensus-state checkpoint is older than the trusting period.
    ConsensusStateExpired,
    /// A header's timestamp lies beyond the host time plus the allowed drift.
    ClockDriftExceeded,
    /// A header's height or timestamp does not advance past the trusted one.
    NonMonotonicHeight,
    /// The client was frozen by proven misbehaviour and refuses the operation.
    ClientFrozen,
    /// The client was already instantiated for this identifier.
    AlreadyInitialized,
    /// The operation is intentionally not offered by this client.
    Unsupported,
}

impl LightClientError {
    /// A short stable name for the error kind, for the host's diagnostics.
    pub fn as_text(&self) -> (r: &'static str)
    {
        match self {
            LightClientError::MalformedInput => "malformed input",
            LightClientError::ProofInvalid => "proof invalid",
            LightClientError::HeightNotFound => "height not found",
            LightClientError::ConsensusStateExpired => "consensus state expired",
            LightClientError::ClockDriftExceeded => "clock drift exceeded",
            LightClientError::NonMonotonicHeight => "non-monotonic height",
            LightClientError::ClientFrozen => "client frozen",
            LightClientError::AlreadyInitialized => "already initialized",
            LightClientError::Unsupported => "unsupported",
        }
    }
}

} // verus!
