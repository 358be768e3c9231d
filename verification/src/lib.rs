//! Parallel brute-force search for a Bitcoin keypair whose bech32 address
//! starts with a chosen prefix.
//!
//! The crate verifies the search orchestration: prefix validation against the
//! bech32 alphabet, the worker loop's batching and shutdown discipline, the
//! shared-progress bookkeeping, and the progress arithmetic. Key generation
//! and address encoding are delegated to the `bitcoin` crate behind a small
//! trusted boundary.

pub mod alphabet;
pub mod counter;
pub mod host;
pub mod plan;
pub mod progress;
pub mod text;
pub mod worker;
