use vstd::prelude::*;
use crate::arbitrage_engine::base_pool_trait::BasePool;
use crate::arbitrage_engine::helpers::{get_price_delta, price_delta};
use crate::arbitrage_engine::structures::{ComputedParams, OptimalAmountResult, SwapResult};
use crate::arith::{abs_int, min_u64};
use crate::error::ErrorCode;

verus! {

/// The caller's bounds on one search.
#[derive(Clone, Copy, Debug, PartialEq, Eq, Structural)]
pub struct UniversalOptimalAmountParams {
    /// The most iterations that the search may run.
    pub max_iterations: u32,
    /// The search stops once the profit changes by less than this percentage.
    pub min_delta_percent: u32,
    /// The search stops once the step falls below this amount.
    pub min_step_size: u64,
    /// The smallest input amount that the search tries.
    pub min_amount: u64,
}

/// What one candidate amount yields over both legs.
#[derive(Clone, Copy, Debug, PartialEq, Eq, Structural)]
pub struct ProfitResult {
    /// Second-leg output less what the first leg consumed.
    pub profit: i64,
    /// What the first leg pays out.
    pub intermediate_output: u64,
    /// What the first leg takes in.
    pub consumed_in_amount: u64,
    /// The spread between the two pools after both legs.
    pub price_delta_bps: u64,
    /// Whether the first pool is still the cheaper one after both legs.
    pub direction_a_to_b: bool,
}

/// The accumulator that the search threads through its iterations.
#[derive(Clone, Copy, Debug, PartialEq, Eq, Structural)]
pub struct SearchState {
    /// How many iterations have run.
    pub iteration: u32,
    /// The amount tried last.
    pub current_amount: u64,
    /// The distance to the next candidate.
    pub step: u64,
    /// The profit of the amount tried last.
    pub prev_profit: i64,
    /// Whether the next candidate lies below the current amount.
    pub decreasing: bool,
    /// The highest profit seen so far.
    pub best_profit: i64,
    /// The input amount that gave the highest profit.
    pub best_in_amount: u64,
    /// The intermediate amount that went with the highest profit.
    pub best_intermediate_amount: u64,
}

/// The profit of a candidate amount, from the quotes of the two legs. The
/// cost basis is what the first leg consumed.
pub open spec fn profit_of_quotes(amount_in: u64, first: SwapResult, second: SwapResult) -> Result<
    ProfitResult,
    ErrorCode,
> {
    let consumed = if first.is_fully_filled {
        amount_in
    } else {
        first.consumed_in_amount
    };
    let profit = second.amount_out - consumed;
    if profit < i64::MIN || profit > i64::MAX {
        Err(ErrorCode::Overflow)
    } else {
        let delta = price_delta(first.new_price, second.new_price);
        Ok(
            ProfitResult {
                profit: profit as i64,
                intermediate_output: first.amount_out,
                consumed_in_amount: consumed,
                price_delta_bps: delta.0,
                direction_a_to_b: delta.1,
            },
        )
    }
}

/// The profit of sending `amount_in` through `pool_in` and what comes out
/// of it back through `pool_out`.
pub open spec fn profit<I: BasePool, O: BasePool>(pool_in: &I, pool_out: &O, amount_in: u64) -> Result<
    ProfitResult,
    ErrorCode,
> {
    match pool_in.quote_out(amount_in, false) {
        Err(e) => Err(e),
        Ok(first) => match pool_out.quote_out(first.amount_out, true) {
            Err(e) => Err(e),
            Ok(second) => profit_of_quotes(amount_in, first, second),
        },
    }
}

/// How far the next candidate lies from the current amount: one and a half
/// steps after a loss, one step otherwise.
pub open spec fn step_multiplier(s: SearchState) -> int {
    if s.prev_profit < 0 {
        s.step + s.step / 2
    } else {
        s.step as int
    }
}

/// The next candidate amount. Moving down past zero lands on `min_amount`.
pub open spec fn candidate_amount(s: SearchState, min_amount: u64) -> int {
    if s.decreasing {
        if s.current_amount > step_multiplier(s) {
            s.current_amount - step_multiplier(s)
        } else {
            min_amount as int
        }
    } else {
        s.current_amount + step_multiplier(s)
    }
}

/// The step after an iteration: a quarter after a loss, a half otherwise.
pub open spec fn reduced_step(s: SearchState) -> u64 {
    if s.prev_profit < 0 {
        s.step / 4
    } else {
        s.step / 2
    }
}

/// The size of the change from one profit to the next, as a percentage of
/// the earlier one, rounded toward zero; zero when the earlier one is zero.
pub open spec fn profit_delta_percent(prev: i64, current: i64) -> int {
    if prev == 0 {
        0
    } else {
        (abs_int(current - prev) * 100) / abs_int(prev as int)
    }
}

/// The state after trying `amount` and finding `p`.
pub open spec fn advance(s: SearchState, amount: u64, p: ProfitResult) -> SearchState {
    SearchState {
        iteration: (s.iteration + 1) as u32,
        current_amount: amount,
        step: reduced_step(s),
        prev_profit: p.profit,
        decreasing: if p.profit < s.prev_profit {
            !s.decreasing
        } else {
            s.decreasing
        },
        best_profit: if p.profit > s.best_profit {
            p.profit
        } else {
            s.best_profit
        },
        best_in_amount: if p.profit > s.best_profit {
            p.consumed_in_amount
        } else {
            s.best_in_amount
        },
        best_intermediate_amount: if p.profit > s.best_profit {
            p.intermediate_output
        } else {
            s.best_intermediate_amount
        },
    }
}

/// Whether the search ends after the iteration that led from `s` to `next`.
pub open spec fn should_stop(
    s: SearchState,
    next: SearchState,
    params: &UniversalOptimalAmountParams,
    max_amount: u64,
) -> bool {
    ||| (s.iteration > 0 && profit_delta_percent(s.prev_profit, next.prev_profit)
        < params.min_delta_percent)
    ||| next.step < params.min_step_size
    ||| next.current_amount <= params.min_amount
    ||| next.current_amount >= max_amount
}

/// The state in which the search ends when it starts from `s`, or the error
/// that ends it. A candidate beyond 64 bits ends it with `Overflow`.
pub open spec fn search_from<I: BasePool, O: BasePool>(
    pool_in: &I,
    pool_out: &O,
    params: &UniversalOptimalAmountParams,
    max_amount: u64,
    s: SearchState,
) -> Result<SearchState, ErrorCode>
    decreases params.max_iterations - s.iteration,
{
    if s.iteration >= params.max_iterations {
        Ok(s)
    } else if candidate_amount(s, params.min_amount) > u64::MAX {
        Err(ErrorCode::Overflow)
    } else {
        let amount = candidate_amount(s, params.min_amount) as u64;
        match profit(pool_in, pool_out, amount) {
            Err(e) => Err(e),
            Ok(p) => {
                let next = advance(s, amount, p);
                if should_stop(s, next, params, max_amount) {
                    Ok(next)
                } else {
                    search_from(pool_in, pool_out, params, max_amount, next)
                }
            },
        }
    }
}

/// The state from which the search starts: the largest amount, half of it
/// as the step, moving down.
pub open spec fn initial_state(max_amount: u64, initial: ProfitResult) -> SearchState {
    SearchState {
        iteration: 0,
        current_amount: max_amount,
        step: max_amount / 2,
        prev_profit: initial.profit,
        decreasing: true,
        best_profit: initial.profit,
        best_in_amount: initial.consumed_in_amount,
        best_intermediate_amount: initial.intermediate_output,
    }
}

/// The result of the search once the direction is known.
pub open spec fn directed_optimal_amount<I: BasePool, O: BasePool>(
    pool_in: &I,
    pool_out: &O,
    price_delta_bps: u64,
    direction_a_to_b: bool,
    params: &UniversalOptimalAmountParams,
    computed_params: &ComputedParams,
) -> Result<OptimalAmountResult, ErrorCode> {
    match pool_in.max_amount(price_delta_bps, false) {
        Err(e) => Err(e),
        Ok(in_max) => match pool_out.max_amount(price_delta_bps, true) {
            Err(e) => Err(e),
            Ok(out_max) => {
                let max_amount = min_u64(computed_params.max_amount_in, min_u64(in_max, out_max));
                match profit(pool_in, pool_out, max_amount) {
                    Err(e) => Err(e),
                    Ok(initial) => if initial.consumed_in_amount == 0 {
                        Err(ErrorCode::NoArbitrageOpportunity)
                    } else {
                        match search_from(
                            pool_in,
                            pool_out,
                            params,
                            max_amount,
                            initial_state(max_amount, initial),
                        ) {
                            Err(e) => Err(e),
                            Ok(last) => if last.best_profit <= 0 {
                                Err(ErrorCode::NoArbitrageOpportunity)
                            } else {
                                Ok(
                                    OptimalAmountResult {
                                        amount_in: last.best_in_amount,
                                        intermediate_amount: last.best_intermediate_amount,
                                        direction_a_to_b,
                                        profit: last.best_profit,
                                    },
                                )
                            },
                        }
                    },
                }
            },
        },
    }
}

/// The result of the search between two pools: the cheaper pool is the
/// first leg.
pub open spec fn optimal_amount<A: BasePool, B: BasePool>(
    pool_a: &A,
    pool_b: &B,
    params: &UniversalOptimalAmountParams,
    computed_params: &ComputedParams,
) -> Result<OptimalAmountResult, ErrorCode> {
    match pool_a.price() {
        Err(e) => Err(e),
        Ok(price_a) => match pool_b.price() {
            Err(e) => Err(e),
            Ok(price_b) => {
                let delta = price_delta(price_a, price_b);
                if delta.1 {
                    directed_optimal_amount(pool_a, pool_b, delta.0, true, params, computed_params)
                } else {
                    directed_optimal_amount(pool_b, pool_a, delta.0, false, params, computed_params)
                }
            },
        },
    }
}

/// Quotes `amount_in` through `pool_in`, and what comes out of it back
/// through `pool_out`.
pub fn get_profit<I: BasePool, O: BasePool>(pool_in: &I, pool_out: &O, amount_in: u64) -> (r: Result<
    ProfitResult,
    ErrorCode,
>)
    requires
        pool_in.wf(),
        pool_out.wf(),
    ensures
        r == profit(pool_in, pool_out, amount_in),
{
    let in_result = match pool_in.get_amount_out(amount_in, false) {
        Ok(q) => q,
        Err(e) => {
            return Err(e);
        },
    };
    let out_result = match pool_out.get_amount_out(in_result.amount_out, true) {
        Ok(q) => q,
        Err(e) => {
            return Err(e);
        },
    };
    let (price_delta_bps, direction_a_to_b) = get_price_delta(
        in_result.new_price,
        out_result.new_price,
    );
    let consumed_in_amount: u64 = if in_result.is_fully_filled {
        amount_in
    } else {
        in_result.consumed_in_amount
    };
    let gain: i128 = (out_result.amount_out as i128) - (consumed_in_amount as i128);
    if gain < -0x8000_0000_0000_0000 || gain > 0x7fff_ffff_ffff_ffff {
        return Err(ErrorCode::Overflow);
    }
    Ok(
        ProfitResult {
            profit: gain as i64,
            intermediate_output: in_result.amount_out,
            consumed_in_amount,
            price_delta_bps,
            direction_a_to_b,
        },
    )
}

/// The next candidate amount, or `None` when it does not fit in 64 bits.
fn next_candidate(s: &SearchState, min_amount: u64) -> (r: Option<u64>)
    ensures
        match r {
            Some(amount) => amount == candidate_amount(*s, min_amount),
            None => candidate_amount(*s, min_amount) > u64::MAX,
        },
{
    let multiplier: u128 = if s.prev_profit < 0 {
        (s.step as u128) + (s.step as u128) / 2
    } else {
        s.step as u128
    };
    if s.decreasing {
        if (s.current_amount as u128) > multiplier {
            Some(((s.current_amount as u128) - multiplier) as u64)
        } else {
            Some(min_amount)
        }
    } else {
        let moved: u128 = (s.current_amount as u128) + multiplier;
        if moved > 0xffff_ffff_ffff_ffff {
            None
        } else {
            Some(moved as u64)
        }
    }
}

/// The size of the profit change in percent of the earlier profit.
fn profit_change_percent(prev: i64, current: i64) -> (r: u128)
    ensures
        r == profit_delta_percent(prev, current),
{
    if prev == 0 {
        return 0;
    }
    let change: i128 = (current as i128) - (prev as i128);
    let change_size: u128 = if change < 0 {
        (-change) as u128
    } else {
        change as u128
    };
    let prev_size: u128 = if prev < 0 {
        (-(prev as i128)) as u128
    } else {
        prev as u128
    };
    change_size * 100 / prev_size
}

/// Runs the iterations of the search from `start` and returns the state
/// in which it ends. No more than `max_iterations` iterations run, and the
/// best profit never falls.
pub fn run_search<I: BasePool, O: BasePool>(
    pool_in: &I,
    pool_out: &O,
    params: &UniversalOptimalAmountParams,
    max_amount: u64,
    start: SearchState,
) -> (r: Result<SearchState, ErrorCode>)
    requires
        pool_in.wf(),
        pool_out.wf(),
    ensures
        r == search_from(pool_in, pool_out, params, max_amount, start),
        r matches Ok(last) ==> start.iteration <= last.iteration && (last.iteration
            <= params.max_iterations || last == start) && last.best_profit >= start.best_profit,
{
    let mut s = start;
    while s.iteration < params.max_iterations
        invariant
            pool_in.wf(),
            pool_out.wf(),
            search_from(pool_in, pool_out, params, max_amount, start) == search_from(
                pool_in,
                pool_out,
                params,
                max_amount,
                s,
            ),
            start.iteration <= s.iteration,
            s.iteration <= params.max_iterations || s == start,
            s.best_profit >= start.best_profit,
        decreases params.max_iterations - s.iteration,
    {
        let amount = match next_candidate(&s, params.min_amount) {
            Some(amount) => amount,
            None => {
                return Err(ErrorCode::Overflow);
            },
        };
        let current = match get_profit(pool_in, pool_out, amount) {
            Ok(p) => p,
            Err(e) => {
                return Err(e);
            },
        };
        let improved = current.profit > s.best_profit;
        let next = SearchState {
            iteration: s.iteration + 1,
            current_amount: amount,
            step: if s.prev_profit < 0 {
                s.step / 4
            } else {
                s.step / 2
            },
            prev_profit: current.profit,
            decreasing: if current.profit < s.prev_profit {
                !s.decreasing
            } else {
                s.decreasing
            },
            best_profit: if improved {
                current.profit
            } else {
                s.best_profit
            },
            best_in_amount: if improved {
                current.consumed_in_amount
            } else {
                s.best_in_amount
            },
            best_intermediate_amount: if improved {
                current.intermediate_output
            } else {
                s.best_intermediate_amount
            },
        };
        assert(next == advance(s, amount, current));
        let small_change = s.iteration > 0 && profit_change_percent(s.prev_profit, current.profit)
            < params.min_delta_percent as u128;
        if small_change || next.step < params.min_step_size || amount <= params.min_amount
            || amount >= max_amount {
            return Ok(next);
        }
        s = next;
    }
    Ok(s)
}

/// The search with the first leg on `pool_in` and the second on `pool_out`.
pub fn find_directed_optimal_amount<I: BasePool, O: BasePool>(
    pool_in: &I,
    pool_out: &O,
    price_delta_bps: u64,
    direction_a_to_b: bool,
    params: &UniversalOptimalAmountParams,
    computed_params: &ComputedParams,
) -> (r: Result<OptimalAmountResult, ErrorCode>)
    requires
        pool_in.wf(),
        pool_out.wf(),
    ensures
        r == directed_optimal_amount(
            pool_in,
            pool_out,
            price_delta_bps,
            direction_a_to_b,
            params,
            computed_params,
        ),
        r matches Ok(best) ==> best.profit > 0 && best.direction_a_to_b == direction_a_to_b,
{
    let pool_in_max_amount = match pool_in.get_max_amount(price_delta_bps, false) {
        Ok(m) => m,
        Err(e) => {
            return Err(e);
        },
    };
    let pool_out_max_amount = match pool_out.get_max_amount(price_delta_bps, true) {
        Ok(m) => m,
        Err(e) => {
            return Err(e);
        },
    };
    let min_pool_max_amount: u64 = if pool_in_max_amount <= pool_out_max_amount {
        pool_in_max_amount
    } else {
        pool_out_max_amount
    };
    let max_amount: u64 = if computed_params.max_amount_in <= min_pool_max_amount {
        computed_params.max_amount_in
    } else {
        min_pool_max_amount
    };
    let initial = match get_profit(pool_in, pool_out, max_amount) {
        Ok(p) => p,
        Err(e) => {
            return Err(e);
        },
    };
    if initial.consumed_in_amount == 0 {
        return Err(ErrorCode::NoArbitrageOpportunity);
    }
    let start = SearchState {
        iteration: 0,
        current_amount: max_amount,
        step: max_amount / 2,
        prev_profit: initial.profit,
        decreasing: true,
        best_profit: initial.profit,
        best_in_amount: initial.consumed_in_amount,
        best_intermediate_amount: initial.intermediate_output,
    };
    let last = match run_search(pool_in, pool_out, params, max_amount, start) {
        Ok(s) => s,
        Err(e) => {
            return Err(e);
        },
    };
    if last.best_profit <= 0 {
        return Err(ErrorCode::NoArbitrageOpportunity);
    }
    Ok(
        OptimalAmountResult {
            amount_in: last.best_in_amount,
            intermediate_amount: last.best_intermediate_amount,
            direction_a_to_b,
            profit: last.best_profit,
        },
    )
}

/// Finds the input amount with the highest profit for a round trip
/// between two pools. Succeeds only with a profit above zero.
pub fn find_optimal_amount<A: BasePool, B: BasePool>(
    pool_a: &A,
    pool_b: &B,
    params: &UniversalOptimalAmountParams,
    computed_params: &ComputedParams,
) -> (r: Result<OptimalAmountResult, ErrorCode>)
    requires
        pool_a.wf(),
        pool_b.wf(),
    ensures
        r == optimal_amount(pool_a, pool_b, params, computed_params),
        r matches Ok(best) ==> best.profit > 0 && pool_a.price() is Ok && pool_b.price() is Ok
            && best.direction_a_to_b == pool_a.price().unwrap().is_lower(pool_b.price().unwrap()),
{
    let price_a = match pool_a.get_price() {
        Ok(p) => p,
        Err(e) => {
            return Err(e);
        },
    };
    let price_b = match pool_b.get_price() {
        Ok(p) => p,
        Err(e) => {
            return Err(e);
        },
    };
    let (price_delta_bps, direction_a_to_b) = get_price_delta(price_a, price_b);
    if direction_a_to_b {
        find_directed_optimal_amount(pool_a, pool_b, price_delta_bps, true, params, computed_params)
    } else {
        find_directed_optimal_amount(pool_b, pool_a, price_delta_bps, false, params, computed_params)
    }
}

} // verus!
