use arbitrage_program::arbitrage_engine::structures::{BaseSwapParams, OptimalAmountResult};
use arbitrage_program::dex::raydium_amm::raydium_amm_pool::RaydiumAmmPool;
use arbitrage_program::error::ErrorCode;
use arbitrage_program::instructions::{arbitrage_legs, max_amount_in, quote_swap, ArbitrageLegs};

#[test]
fn attempt_may_spend_ninety_nine_percent() {
    assert_eq!(max_amount_in(0), 0);
    assert_eq!(max_amount_in(1), 0);
    assert_eq!(max_amount_in(100), 99);
    assert_eq!(max_amount_in(199), 197);
    assert_eq!(max_amount_in(u64::MAX), 18262276632972456098);
}

#[test]
fn legs_from_a_to_b_buy_the_intermediate_amount_first() {
    let result = OptimalAmountResult {
        amount_in: 2_500,
        intermediate_amount: 24,
        direction_a_to_b: true,
        profit: 119,
    };
    assert_eq!(
        arbitrage_legs(&result),
        ArbitrageLegs {
            first_on_pool_a: true,
            first: BaseSwapParams {
                amount_in: u64::MAX,
                min_amount_out: 24,
                source_to_intermediate: true,
            },
            second: BaseSwapParams { amount_in: 24, min_amount_out: 0, source_to_intermediate: false },
        }
    );
}

#[test]
fn legs_from_b_to_a_spend_the_input_amount_first() {
    let result = OptimalAmountResult {
        amount_in: 2_500,
        intermediate_amount: 24,
        direction_a_to_b: false,
        profit: 119,
    };
    assert_eq!(
        arbitrage_legs(&result),
        ArbitrageLegs {
            first_on_pool_a: false,
            first: BaseSwapParams { amount_in: 2_500, min_amount_out: 0, source_to_intermediate: true },
            second: BaseSwapParams { amount_in: 24, min_amount_out: 0, source_to_intermediate: false },
        }
    );
}

#[test]
fn single_swap_asks_for_what_the_quote_pays() {
    let pool = RaydiumAmmPool {
        is_source_quote: true,
        swap_fee: 25,
        base_reserve: 1_000_000,
        quote_reserve: 2_000_000,
        base_reserve_without_take_pnl: 1_000_000,
        quote_reserve_without_take_pnl: 2_000_000,
    };
    let params = BaseSwapParams { amount_in: 10_000, min_amount_out: 1, source_to_intermediate: true };
    assert_eq!(
        quote_swap(&pool, &params),
        Ok(BaseSwapParams { amount_in: 10_001, min_amount_out: 4962, source_to_intermediate: true })
    );
    let back = BaseSwapParams { amount_in: 10_000, min_amount_out: 1, source_to_intermediate: false };
    assert_eq!(
        quote_swap(&pool, &back),
        Ok(BaseSwapParams { amount_in: 10_001, min_amount_out: 19752, source_to_intermediate: false })
    );
    let huge = BaseSwapParams { amount_in: u64::MAX, min_amount_out: 1, source_to_intermediate: true };
    assert_eq!(quote_swap(&pool, &huge), Err(ErrorCode::Overflow));
}
