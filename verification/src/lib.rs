//! Core of an IBC-style light client: a verifier that lets a host chain
//! trust claims about a remote chain's state without running a full node.
//!
//! The crate holds the light-client state machine and its proof-verification
//! protocol: how client state and consensus state evolve on header updates,
//! how inclusion / exclusion proofs are checked against a trusted commitment
//! root, and how conflicting headers are detected as misbehaviour.
pub mod bytes;
pub mod commitment;
pub mod encoding;
pub mod errors;
pub mod header;
pub mod height;
pub mod keys;
pub mod machine;
pub mod misbehaviour;
pub mod msgs;
