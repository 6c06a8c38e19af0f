//! Per-tick liquidity data of a concentrated-liquidity pool.

use vstd::prelude::*;

verus! {

/// Liquidity bookkeeping at one tick boundary.
#[derive(Clone, Copy, Debug, PartialEq, Eq, Structural)]
pub struct UniswapV3TickData {
    /// Whether the tick has any liquidity referencing it.
    pub initialized: bool,
    /// The tick index.
    pub tick: i32,
    /// Net liquidity added when the tick is crossed left to right.
    pub liquidity_net: i128,
}

} // verus!
