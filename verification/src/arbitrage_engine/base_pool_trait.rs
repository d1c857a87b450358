use vstd::prelude::*;
use crate::arbitrage_engine::structures::{LiquidityType, SwapResult};
use crate::error::ErrorCode;
use crate::price::Price;

verus! {

/// What every venue offers to the search: quotes and prices read from one
/// snapshot of the pool, all in terms of the source and the intermediate
/// token of the surrounding trade.
///
/// The direction flag of a quote is `false` for source to intermediate and
/// `true` for intermediate to source. Prices are source units per
/// intermediate unit.
pub trait BasePool {
    /// The snapshot's invariant.
    spec fn wf(&self) -> bool;

    /// The pool's aggregate fee in basis points.
    spec fn fee_rate_bps(&self) -> u64;

    /// The pool's current price.
    spec fn price(&self) -> Result<Price, ErrorCode>;

    /// The quote for a known input.
    spec fn quote_out(&self, amount_in: u64, swap_for_quote: bool) -> Result<SwapResult, ErrorCode>;

    /// The quote for a wanted output.
    spec fn quote_in(&self, amount_out: u64, swap_for_quote: bool) -> Result<SwapResult, ErrorCode>;

    /// The pool's kind of liquidity.
    spec fn pool_type(&self) -> Result<LiquidityType, ErrorCode>;

    /// The most that the pool can trade at the given spread.
    spec fn max_amount(&self, price_delta_bps: u64, swap_for_quote: bool) -> Result<u64, ErrorCode>;

    /// The product of the two tradable reserves.
    spec fn base_quote_product(&self) -> Result<u128, ErrorCode>;

    fn get_fee_rate_bps(&self) -> (r: u64)
        requires
            self.wf(),
        ensures
            r == self.fee_rate_bps(),
    ;

    fn get_price(&self) -> (r: Result<Price, ErrorCode>)
        requires
            self.wf(),
        ensures
            r == self.price(),
            r matches Ok(p) ==> p.wf(),
    ;

    fn get_amount_out(&self, amount_in: u64, swap_for_quote: bool) -> (r: Result<
        SwapResult,
        ErrorCode,
    >)
        requires
            self.wf(),
        ensures
            r == self.quote_out(amount_in, swap_for_quote),
            r matches Ok(q) ==> q.new_price.wf(),
    ;

    fn get_amount_in(&self, amount_out: u64, swap_for_quote: bool) -> (r: Result<
        SwapResult,
        ErrorCode,
    >)
        requires
            self.wf(),
        ensures
            r == self.quote_in(amount_out, swap_for_quote),
            r matches Ok(q) ==> q.new_price.wf(),
    ;

    fn get_pool_type(&self) -> (r: Result<LiquidityType, ErrorCode>)
        requires
            self.wf(),
        ensures
            r == self.pool_type(),
    ;

    fn get_max_amount(&self, price_delta_bps: u64, swap_for_quote: bool) -> (r: Result<
        u64,
        ErrorCode,
    >)
        requires
            self.wf(),
        ensures
            r == self.max_amount(price_delta_bps, swap_for_quote),
    ;

    fn get_base_quote_product(&self) -> (r: Result<u128, ErrorCode>)
        requires
            self.wf(),
        ensures
            r == self.base_quote_product(),
    ;
}

} // verus!
