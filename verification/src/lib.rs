//! Light-client tracking core: the data model and the update decision
//! protocol that let one chain follow another chain's consensus state.
//!
//! The library covers heights and their order, trust-threshold policy,
//! Merkle proof specifications, client and consensus state, headers and
//! misbehaviour evidence, the relayer-facing update decision, and a mock
//! chain context that drives the whole cycle in tests.

pub mod client_state;
pub mod consensus_state;
pub mod context;
pub mod errors;
pub mod header;
pub mod height;
pub mod identifier;
pub mod proof_specs;
pub mod relayer;
pub mod tendermint;
pub mod trust_threshold;
