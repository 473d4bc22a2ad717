//! Record format and backend model for posting finalized epochs of a
//! verifiable state-transition log to a data-availability layer.
//!
//! The core is the `FinalizedEpoch` record with its deterministic signing
//! payload and its sign/verify protocol, and an in-memory, height-indexed
//! store with a bounded, lossy height-notification fan-out that realizes the
//! data-availability contract.
//!
//! Cross-epoch continuity — that one epoch's current commitment equals the
//! next epoch's previous commitment — is deliberately not enforced by the
//! record or the store; it is the consuming verifier's check to make across
//! the epochs it retrieves.

pub mod digest;
pub mod encoding;
pub mod epoch;
pub mod hex;
pub mod keys;
pub mod memory;
pub mod transaction;
