use vstd::prelude::*;
use crate::price::Price;

verus! {

/// How a pool spreads its liquidity over prices.
#[derive(Clone, Copy, Debug, PartialEq, Eq, Structural)]
pub enum LiquidityType {
    Concentrated,
    Constant,
}

/// The outcome of quoting one leg on a pool.
#[derive(Clone, Copy, Debug, PartialEq, Eq, Structural)]
pub struct SwapResult {
    /// What the pool pays out.
    pub amount_out: u64,
    /// What the pool takes in; below the request when the fill is partial.
    pub consumed_in_amount: u64,
    /// Whether the whole request was filled.
    pub is_fully_filled: bool,
    /// The pool's price after the trade.
    pub new_price: Price,
}

/// The best input amount that a search found.
#[derive(Clone, Copy, Debug, PartialEq, Eq, Structural)]
pub struct OptimalAmountResult {
    pub amount_in: u64,
    pub intermediate_amount: u64,
    pub direction_a_to_b: bool,
    pub profit: i64,
}

/// Limits worked out by the caller before a search.
#[derive(Clone, Copy, Debug, PartialEq, Eq, Structural)]
pub struct ComputedParams {
    /// The most that the first leg may spend.
    pub max_amount_in: u64,
}

/// The arguments of a single swap.
#[derive(Clone, Copy, Debug, PartialEq, Eq, Structural)]
pub struct BaseSwapParams {
    pub amount_in: u64,
    pub min_amount_out: u64,
    pub source_to_intermediate: bool,
}

} // verus!
