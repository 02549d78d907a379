//! A durable registry of proposals and their votes.
//!
//! Records live in a B-tree in stable memory, keyed by a 64-bit
//! identifier. The registry allows one vote per caller on a proposal
//! that is still open, and lets only the owner of a proposal edit or
//! close it.

pub mod identity;
pub mod proposal;
pub mod tree;
pub mod codec;
pub mod store;
pub mod registry;
pub mod laws;
