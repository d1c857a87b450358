use vstd::prelude::*;
use crate::arbitrage_engine::base_pool_trait::BasePool;
use crate::arbitrage_engine::structures::{BaseSwapParams, OptimalAmountResult};
use crate::error::ErrorCode;

verus! {

/// The share of the source balance that one attempt may spend: 99%,
/// rounded down.
pub open spec fn spendable(balance: u64) -> int {
    balance * 99 / 100
}

/// The most that the first leg may spend of a source balance.
pub fn max_amount_in(balance: u64) -> (amount: u64)
    ensures
        amount == spendable(balance),
        amount <= balance,
{
    ((balance as u128) * 99 / 100) as u64
}

/// The two swaps of an attempt, in the order in which they run.
#[derive(Clone, Copy, Debug, PartialEq, Eq, Structural)]
pub struct ArbitrageLegs {
    /// Whether the first swap runs on pool A and the second on pool B; else
    /// the other way round.
    pub first_on_pool_a: bool,
    pub first: BaseSwapParams,
    pub second: BaseSwapParams,
}

/// The swaps that carry out a search result. When pool A is the cheaper
/// one, the first leg buys exactly the intermediate amount there for
/// whatever it costs and the second sells it on pool B; else the first leg
/// spends the input amount on pool B and the second sells the intermediate
/// amount on pool A. The second leg states no least output.
pub open spec fn legs_of(result: OptimalAmountResult) -> ArbitrageLegs {
    if result.direction_a_to_b {
        ArbitrageLegs {
            first_on_pool_a: true,
            first: BaseSwapParams {
                amount_in: u64::MAX,
                min_amount_out: result.intermediate_amount,
                source_to_intermediate: true,
            },
            second: BaseSwapParams {
                amount_in: result.intermediate_amount,
                min_amount_out: 0,
                source_to_intermediate: false,
            },
        }
    } else {
        ArbitrageLegs {
            first_on_pool_a: false,
            first: BaseSwapParams {
                amount_in: result.amount_in,
                min_amount_out: 0,
                source_to_intermediate: true,
            },
            second: BaseSwapParams {
                amount_in: result.intermediate_amount,
                min_amount_out: 0,
                source_to_intermediate: false,
            },
        }
    }
}

/// Turns a search result into the two swaps that carry it out.
pub fn arbitrage_legs(result: &OptimalAmountResult) -> (legs: ArbitrageLegs)
    ensures
        legs == legs_of(*result),
{
    let second = BaseSwapParams {
        amount_in: result.intermediate_amount,
        min_amount_out: 0,
        source_to_intermediate: false,
    };
    if result.direction_a_to_b {
        ArbitrageLegs {
            first_on_pool_a: true,
            first: BaseSwapParams {
                amount_in: u64::MAX,
                min_amount_out: result.intermediate_amount,
                source_to_intermediate: true,
            },
            second,
        }
    } else {
        ArbitrageLegs {
            first_on_pool_a: false,
            first: BaseSwapParams {
                amount_in: result.amount_in,
                min_amount_out: 0,
                source_to_intermediate: true,
            },
            second,
        }
    }
}

/// The swap that a quoted single swap asks of the venue: one unit more
/// than the quote consumes, for no less than the quote pays.
pub open spec fn quoted_swap<P: BasePool>(pool: &P, params: BaseSwapParams) -> Result<
    BaseSwapParams,
    ErrorCode,
> {
    match pool.quote_out(params.amount_in, !params.source_to_intermediate) {
        Err(e) => Err(e),
        Ok(quote) => if quote.consumed_in_amount == u64::MAX {
            Err(ErrorCode::Overflow)
        } else {
            Ok(
                BaseSwapParams {
                    amount_in: (quote.consumed_in_amount + 1) as u64,
                    min_amount_out: quote.amount_out,
                    source_to_intermediate: params.source_to_intermediate,
                },
            )
        },
    }
}

/// Quotes a single swap on a pool and returns the swap to ask of the
/// venue.
pub fn quote_swap<P: BasePool>(pool: &P, params: &BaseSwapParams) -> (r: Result<
    BaseSwapParams,
    ErrorCode,
>)
    requires
        pool.wf(),
    ensures
        r == quoted_swap(pool, *params),
{
    let quote = match pool.get_amount_out(params.amount_in, !params.source_to_intermediate) {
        Ok(q) => q,
        Err(e) => {
            return Err(e);
        },
    };
    if quote.consumed_in_amount == u64::MAX {
        return Err(ErrorCode::Overflow);
    }
    Ok(
        BaseSwapParams {
            amount_in: quote.consumed_in_amount + 1,
            min_amount_out: quote.amount_out,
            source_to_intermediate: params.source_to_intermediate,
        },
    )
}

} // verus!
