use vstd::prelude::*;
use vstd::arithmetic::div_mod::{lemma_div_by_multiple, lemma_fundamental_div_mod};
use vstd::arithmetic::mul::lemma_mul_is_commutative;
use crate::arbitrage_engine::base_pool_trait::BasePool;
use crate::arbitrage_engine::structures::{ComputedParams, OptimalAmountResult, SwapResult};
use crate::arbitrage_engine::universal::{
    advance, candidate_amount, initial_state, optimal_amount, profit, search_from, should_stop,
    SearchState, UniversalOptimalAmountParams,
};
use crate::arith::min_u64;
use crate::dex::constant_product::{lemma_product_output_below_reserve, product_output};
use crate::dex::raydium_amm::math::amount_in_with_fee;
use crate::dex::raydium_amm::raydium_amm_pool::RaydiumAmmPool;
use crate::error::ErrorCode;
use crate::price::Price;

verus! {

/// The pool's tradable reserve of the source token.
pub open spec fn source_reserve(pool: RaydiumAmmPool) -> u64 {
    if pool.is_source_quote {
        pool.quote_reserve_without_take_pnl
    } else {
        pool.base_reserve_without_take_pnl
    }
}

/// The pool's tradable reserve of the intermediate token.
pub open spec fn intermediate_reserve(pool: RaydiumAmmPool) -> u64 {
    if pool.is_source_quote {
        pool.base_reserve_without_take_pnl
    } else {
        pool.quote_reserve_without_take_pnl
    }
}

/// Without a fee, a leg from source to intermediate pays the
/// constant-product output of the source reserve against the intermediate
/// reserve, and a leg back pays that of the intermediate reserve against the
/// source reserve. Both legs are filled in full.
pub proof fn lemma_quotes_without_fee(pool: RaydiumAmmPool, amount: u64)
    requires
        pool.wf(),
        pool.swap_fee == 0,
    ensures
        pool.price() == Ok::<Price, ErrorCode>(
            Price {
                numerator: source_reserve(pool),
                denominator: intermediate_reserve(pool),
            },
        ),
        pool.quote_out(amount, false) matches Ok(q) ==> q.is_fully_filled && q.amount_out
            == product_output(
            source_reserve(pool) as int,
            intermediate_reserve(pool) as int,
            amount as int,
        ),
        pool.quote_out(amount, true) matches Ok(q) ==> q.is_fully_filled && q.amount_out
            == product_output(
            intermediate_reserve(pool) as int,
            source_reserve(pool) as int,
            amount as int,
        ),
        pool.quote_out(amount, false) is Err ==> pool.quote_out(amount, false) == Err::<
            SwapResult,
            ErrorCode,
        >(ErrorCode::Overflow),
        pool.quote_out(amount, true) is Err ==> pool.quote_out(amount, true) == Err::<
            SwapResult,
            ErrorCode,
        >(ErrorCode::Overflow),
{
    assert(amount_in_with_fee(amount as int, 0) == amount) by {
        lemma_div_by_multiple(amount as int, 10000);
        lemma_mul_is_commutative(amount as int, 10000);
    }
    lemma_product_output_below_reserve(
        source_reserve(pool) as int,
        intermediate_reserve(pool) as int,
        amount as int,
    );
    lemma_product_output_below_reserve(
        intermediate_reserve(pool) as int,
        source_reserve(pool) as int,
        amount as int,
    );
}

/// Between two pools with the same price, what the second pool pays back
/// for the output of the first is never more than what the first took in.
pub proof fn lemma_round_trip_never_gains(
    source_in: int,
    intermediate_in: int,
    source_out: int,
    intermediate_out: int,
    amount: int,
)
    requires
        source_in > 0,
        intermediate_in > 0,
        source_out > 0,
        intermediate_out > 0,
        amount >= 0,
        source_in * intermediate_out == source_out * intermediate_in,
    ensures
        product_output(
            intermediate_out,
            source_out,
            product_output(source_in, intermediate_in, amount),
        ) <= amount,
{
    let y = product_output(source_in, intermediate_in, amount);
    let z = product_output(intermediate_out, source_out, y);
    lemma_product_output_below_reserve(
        source_in,
        intermediate_in,
        amount,
    );
    lemma_product_output_below_reserve(
        intermediate_out,
        source_out,
        y,
    );
    let first = intermediate_in * amount;
    let second = source_out * y;
    lemma_fundamental_div_mod(first, source_in + amount);
    lemma_fundamental_div_mod(second, intermediate_out + y);
    assert(y * (source_in + amount) <= intermediate_in * amount) by (nonlinear_arith)
        requires
            first == intermediate_in * amount,
            first == (source_in + amount) * y + first % (source_in + amount),
            0 <= first % (source_in + amount),
    ;
    assert(z * (intermediate_out + y) <= source_out * y) by (nonlinear_arith)
        requires
            second == source_out * y,
            second == (intermediate_out + y) * z + second % (intermediate_out + y),
            0 <= second % (intermediate_out + y),
    ;
    let scale = (intermediate_out + y) * intermediate_in;
    assert(z * scale <= source_out * y * intermediate_in) by (nonlinear_arith)
        requires
            z * (intermediate_out + y) <= source_out * y,
            scale == (intermediate_out + y) * intermediate_in,
            intermediate_in > 0,
    ;
    assert(source_out * y * intermediate_in == source_in * y * intermediate_out)
        by (nonlinear_arith)
        requires
            source_in * intermediate_out == source_out * intermediate_in,
    ;
    assert(source_in * y * intermediate_out <= intermediate_out * (intermediate_in * amount - amount
        * y)) by (nonlinear_arith)
        requires
            y * (source_in + amount) <= intermediate_in * amount,
            intermediate_out > 0,
    ;
    assert(intermediate_out * (intermediate_in * amount - amount * y) <= amount * scale)
        by (nonlinear_arith)
        requires
            scale == (intermediate_out + y) * intermediate_in,
            intermediate_out > 0,
            intermediate_in > 0,
            amount >= 0,
            y >= 0,
    ;
    assert(scale > 0) by (nonlinear_arith)
        requires
            scale == (intermediate_out + y) * intermediate_in,
            intermediate_out > 0,
            intermediate_in > 0,
            y >= 0,
    ;
    assert(z <= amount) by (nonlinear_arith)
        requires
            z * scale <= amount * scale,
            scale > 0,
    ;
}

/// Between two fee-less pools with the same price, no amount yields a
/// profit above zero, and no evaluation fails but by overflow.
pub proof fn lemma_profit_between_equal_prices(
    pool_in: RaydiumAmmPool,
    pool_out: RaydiumAmmPool,
    amount_in: u64,
)
    requires
        pool_in.wf(),
        pool_out.wf(),
        pool_in.swap_fee == 0,
        pool_out.swap_fee == 0,
        source_reserve(pool_in) * intermediate_reserve(pool_out) == source_reserve(pool_out)
            * intermediate_reserve(pool_in),
    ensures
        match profit(&pool_in, &pool_out, amount_in) {
            Ok(p) => p.profit <= 0,
            Err(e) => e == ErrorCode::Overflow,
        },
{
    lemma_quotes_without_fee(pool_in, amount_in);
    if let Ok(first) = pool_in.quote_out(amount_in, false) {
        lemma_quotes_without_fee(pool_out, first.amount_out);
        lemma_round_trip_never_gains(
            source_reserve(pool_in) as int,
            intermediate_reserve(pool_in) as int,
            source_reserve(pool_out) as int,
            intermediate_reserve(pool_out) as int,
            amount_in as int,
        );
    }
}

/// A search between two fee-less pools with the same price ends without
/// a profit above zero when it starts without one.
pub proof fn lemma_search_between_equal_prices(
    pool_in: RaydiumAmmPool,
    pool_out: RaydiumAmmPool,
    params: UniversalOptimalAmountParams,
    max_amount: u64,
    s: SearchState,
)
    requires
        pool_in.wf(),
        pool_out.wf(),
        pool_in.swap_fee == 0,
        pool_out.swap_fee == 0,
        source_reserve(pool_in) * intermediate_reserve(pool_out) == source_reserve(pool_out)
            * intermediate_reserve(pool_in),
        s.best_profit <= 0,
    ensures
        match search_from(&pool_in, &pool_out, &params, max_amount, s) {
            Ok(last) => last.best_profit <= 0,
            Err(e) => e == ErrorCode::Overflow,
        },
    decreases params.max_iterations - s.iteration,
{
    if s.iteration < params.max_iterations && candidate_amount(
        s,
        params.min_amount,
    ) <= u64::MAX {
        let amount = candidate_amount(s, params.min_amount) as u64;
        lemma_profit_between_equal_prices(pool_in, pool_out, amount);
        if let Ok(p) = profit(&pool_in, &pool_out, amount) {
            let next = advance(s, amount, p);
            if !should_stop(s, next, &params, max_amount) {
                lemma_search_between_equal_prices(pool_in, pool_out, params, max_amount, next);
            }
        }
    }
}

/// Two fee-less pools with the same price offer no opportunity: whatever
/// the bounds, the search between them fails, with
/// `NoArbitrageOpportunity` unless an amount overflows.
pub proof fn lemma_equal_prices_offer_no_opportunity(
    pool_a: RaydiumAmmPool,
    pool_b: RaydiumAmmPool,
    params: UniversalOptimalAmountParams,
    computed_params: ComputedParams,
)
    requires
        pool_a.wf(),
        pool_b.wf(),
        pool_a.swap_fee == 0,
        pool_b.swap_fee == 0,
        pool_a.price().unwrap().is_same(pool_b.price().unwrap()),
    ensures
        optimal_amount(&pool_a, &pool_b, &params, &computed_params) == Err::<
            OptimalAmountResult,
            ErrorCode,
        >(ErrorCode::NoArbitrageOpportunity) || optimal_amount(
            &pool_a,
            &pool_b,
            &params,
            &computed_params,
        ) == Err::<OptimalAmountResult, ErrorCode>(
            ErrorCode::Overflow,
        ),
{
    lemma_quotes_without_fee(pool_a, 0);
    lemma_quotes_without_fee(pool_b, 0);
    let max_amount = min_u64(
        computed_params.max_amount_in,
        min_u64(u64::MAX, u64::MAX),
    );
    assert(source_reserve(pool_b) * intermediate_reserve(pool_a) == source_reserve(pool_a)
        * intermediate_reserve(pool_b)) by (nonlinear_arith)
        requires
            source_reserve(pool_a) * intermediate_reserve(pool_b) == source_reserve(pool_b)
                * intermediate_reserve(pool_a),
    ;
    lemma_profit_between_equal_prices(pool_b, pool_a, max_amount);
    if let Ok(initial) = profit(&pool_b, &pool_a, max_amount) {
        lemma_search_between_equal_prices(
            pool_b,
            pool_a,
            params,
            max_amount,
            initial_state(max_amount, initial),
        );
    }
}

} // verus!
