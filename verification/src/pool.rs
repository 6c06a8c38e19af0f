//! Pools and the registry entries that hold them.

use vstd::prelude::*;
use crate::primitives::{int24_limit, uint160_limit, uint24_limit, H160, U256};

verus! {

/// The state of one concentrated-liquidity pool.
///
/// `address` identifies the pool and never changes once the pool is known.
/// The other fields mirror the pool contract's storage as of the last read
/// that succeeded; they are only ever replaced together.
#[derive(Clone, Copy, Debug, PartialEq, Eq)]
pub struct UniswapV3PoolCustomized {
    /// The pool contract.
    pub address: H160,
    /// The first pooled asset.
    pub token_a: H160,
    /// Decimal places of the first asset.
    pub token_a_decimals: u8,
    /// The second pooled asset.
    pub token_b: H160,
    /// Decimal places of the second asset.
    pub token_b_decimals: u8,
    /// Liquidity in range at the current price.
    pub liquidity: u128,
    /// Square root of the price as a fixed-point number, 160 bits wide.
    pub sqrt_price: U256,
    /// Swap fee, 24 bits wide.
    pub fee: u32,
    /// The current tick, a 24-bit signed quantity.
    pub tick: i32,
    /// Distance between usable ticks, a 24-bit signed quantity.
    pub tick_spacing: i32,
}

impl UniswapV3PoolCustomized {
    /// Whether every field lies in the range that the pool contract can
    /// report for it.
    pub open spec fn well_formed(self) -> bool {
        &&& self.sqrt_price.value() < uint160_limit()
        &&& self.fee < uint24_limit()
        &&& -int24_limit() <= self.tick < int24_limit()
        &&& -int24_limit() <= self.tick_spacing < int24_limit()
    }

    /// A pool known only by its address: every other field is zero.
    pub open spec fn spec_new(address: H160) -> UniswapV3PoolCustomized {
        UniswapV3PoolCustomized {
            address,
            token_a: H160::spec_zero(),
            token_a_decimals: 0,
            token_b: H160::spec_zero(),
            token_b_decimals: 0,
            liquidity: 0,
            sqrt_price: U256([0, 0, 0, 0]),
            fee: 0,
            tick: 0,
            tick_spacing: 0,
        }
    }

    /// A pool known only by its address, ready to be filled by a batch read.
    pub fn new(address: H160) -> (pool: UniswapV3PoolCustomized)
        ensures
            pool == Self::spec_new(address),
            pool.well_formed(),
    {
        UniswapV3PoolCustomized {
            address,
            token_a: H160::zero(),
            token_a_decimals: 0,
            token_b: H160::zero(),
            token_b_decimals: 0,
            liquidity: 0,
            sqrt_price: U256([0, 0, 0, 0]),
            fee: 0,
            tick: 0,
            tick_spacing: 0,
        }
    }
}

/// One entry of a pool registry.
///
/// A registry may hold pools of several kinds side by side. A batch read
/// updates the entries of the kind it was made for and passes over the rest.
#[derive(Clone, Copy, Debug, PartialEq, Eq)]
pub enum AMM {
    /// A concentrated-liquidity pool that batch reads keep up to date.
    UniswapV3PoolCustomized(UniswapV3PoolCustomized),
    /// A pool of some other kind, known here only by its address.
    Other(H160),
}

impl AMM {
    /// The contract that the entry stands for.
    pub open spec fn spec_address(&self) -> H160 {
        match self {
            AMM::UniswapV3PoolCustomized(pool) => pool.address,
            AMM::Other(address) => *address,
        }
    }

    /// The contract that the entry stands for.
    #[verifier::when_used_as_spec(spec_address)]
    pub fn address(&self) -> (r: H160)
        ensures
            r == self.spec_address(),
    {
        match self {
            AMM::UniswapV3PoolCustomized(pool) => pool.address,
            AMM::Other(address) => *address,
        }
    }

    /// Whether the entry's fields lie in range; entries of other kinds have
    /// none to check.
    pub open spec fn well_formed(self) -> bool {
        match self {
            AMM::UniswapV3PoolCustomized(pool) => pool.well_formed(),
            AMM::Other(_) => true,
        }
    }
}

} // verus!
