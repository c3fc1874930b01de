//! A partial-fill escrow primitive with a deterministic factory.
//!
//! An escrow holds a balance that a counterparty may redeem in up to N
//! pre-committed increments ("parts"), each unlocked by revealing a secret
//! proven against a single committed Merkle root, under strict ordering,
//! expiry, and exactly-once payout rules. A factory instantiates escrows
//! keyed by a caller-supplied salt and never lets two deployments share one.
//!
//! The ledger that sequences calls, holds balances, and moves value is an
//! external collaborator: each operation takes a [`host::HostContext`]
//! snapshot of it and returns the record the host should emit, so the state
//! machines here are pure and fully verified.

pub mod amounts;
pub mod escrow;
pub mod factory;
pub mod hashing;
pub mod host;
pub mod merkle;
pub mod types;
