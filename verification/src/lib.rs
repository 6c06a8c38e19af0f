//! Batched reads of concentrated-liquidity pool state.
//!
//! One contract call returns the state of many pools as a single block of
//! call data. This crate decodes that block into per-pool records, maps each
//! record onto typed pool fields, and writes the result back into an ordered
//! registry of pools, position by position.

pub mod abi;
pub mod batch_request;
pub mod errors;
pub mod pool;
pub mod primitives;
pub mod record;
pub mod registry;
pub mod schema;
pub mod tick;
