//! A shared escrow group: a pool that an owner creates with a fixed
//! per-member deposit requirement, into which members contribute funds, and
//! whose status becomes `MajorityReached` once the accumulated deposits cross
//! a fixed threshold of three times the requirement.
//!
//! The ledger substrate around the pool (signer authentication, deterministic
//! per-owner addressing, the fund transfer itself, durable storage) is not
//! part of this crate's logic: each operation here is the pure state
//! transition of one `Group` record, and the surrounding runtime applies it
//! atomically.

pub mod engine;
pub mod laws;
