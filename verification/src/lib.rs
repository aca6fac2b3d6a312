//! Escrow transaction engine for a two-party-plus-arbitrator Bitcoin payment.
//!
//! Given three participant public keys, the engine derives a deterministic
//! 2-of-3 spending policy, builds an unsigned funding transaction against a
//! caller-supplied UTXO, collects partial signatures until the threshold is
//! met, and serializes the finished transaction for broadcast to a node.

pub mod broadcast;
pub mod bytes;
pub mod engine;
pub mod errors;
pub mod hashes;
pub mod identity;
pub mod policy;
pub mod session;
pub mod spending;
pub mod tx;
pub mod wire;
