//! A registry and exchange for carbon-offset credit batches.
//!
//! The library is the registry core: a state machine over credits,
//! a verifier whitelist, marketplace listings and a retired-credit
//! index, together with the authorization rules that govern every
//! transition. The surrounding execution environment (identity
//! proofs, durable storage, event transport) hands the core plain
//! values and carries its results outward; the core itself is pure
//! and fully verified.

pub mod types;
pub mod registry;
pub mod laws;
