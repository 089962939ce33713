//! A deterministic state-transition runtime for a small ledger: blocks of
//! extrinsics are applied in order to account balances, per-account nonces,
//! a block height and a registry of content claims.

pub mod balances;
mod numeric;
pub mod proof_of_existence;
pub mod runtime;
pub mod support;
pub mod system;
pub mod table;
pub mod types;

pub use runtime::{Runtime, RuntimeCall};
