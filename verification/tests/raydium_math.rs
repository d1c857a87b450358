use arbitrage_program::dex::raydium_amm::math::{
    calc_total_without_take_pnl_no_orderbook, checked_get_amount_in, checked_get_amount_out,
    get_amount_in, get_amount_out, SwapDirection,
};
use arbitrage_program::price::Price;

#[test]
fn math_test_1() {
    let res = get_amount_out(12794417033873, 14623638931098, 4770695067, 25, true);
    assert_eq!(res.amount_out, 5437108676);

    let res = get_amount_in(12794417033873, 14623638931098, 5437108676, 25, true);
    assert_eq!(res.amount_in, 4770695067);
}

#[test]
fn test_2() {
    let res = get_amount_out(67792550811113, 4347866560489, 13116944512, 25, true);
    assert_eq!(res.amount_out, 838988494);
}

#[test]
fn test_3() {
    let res = get_amount_out(16962266375499, 6206989776373, 32841092305, 25, true);
    assert_eq!(res.amount_out, 11964366572);

    let res = get_amount_in(16962266375499, 6206989776373, 11964366572, 25, true);
    assert_eq!(res.amount_in, 32841092305);
}

#[test]
fn test_4() {
    let res = get_amount_out(40892586974517, 9310469542699, 39223577063, 25, true);
    assert_eq!(res.amount_out, 8899626294);
}

#[test]
fn token_amount_test_1() {
    let res = get_amount_out(59363492683755, 4651763938687, 741384553, 25, false);
    assert_eq!(res.amount_out, 9436027032);

    let res = get_amount_in(59363492683755, 4651763938687, 9436027032, 25, false);
    assert_eq!(res.amount_in, 741384553);
}

#[test]
fn math_test_2() {
    let res = get_amount_out(39669574552562, 1213674483172, 1831981585, 25, false);
    assert_eq!(res.amount_out, 59639763742);

    let res = get_amount_in(39669574552562, 1213674483172, 59639763742, 25, false);
    assert_eq!(res.amount_in, 1831981585);
}

#[test]
fn math_test_3() {
    let res = get_amount_out(168893908415298, 201910628112, 948713771, 25, false);
    assert_eq!(res.amount_out, 787901922402);

    let res = get_amount_in(168893908415298, 201910628112, 787901922402, 25, false);
    assert_eq!(res.amount_in, 948713771);
}

#[test]
fn math_test_4() {
    let res = get_amount_out(35100628106288, 10125606016962, 23886235154, 25, false);
    assert_eq!(res.amount_out, 82401237639);

    let res = get_amount_in(35100628106288, 10125606016962, 82401237639, 25, false);
    assert_eq!(res.amount_in, 23886235154);
}

#[test]
fn test_1() {
    let (base_reserve_without_take_pnl, quote_reserve_without_take_pnl): (u64, u64) =
        calc_total_without_take_pnl_no_orderbook(40892586974517, 9310469542699, 0, 0);
    assert_eq!(base_reserve_without_take_pnl, 40892586974517);
    assert_eq!(quote_reserve_without_take_pnl, 9310469542699);
}

#[test]
fn take_pnl_is_subtracted_per_side() {
    let (base, quote): (u64, u64) = calc_total_without_take_pnl_no_orderbook(1000, 500, 20, 300);
    assert_eq!(base, 700);
    assert_eq!(quote, 480);
}

#[test]
fn forward_quote_reports_price_after_the_swap() {
    let res = get_amount_out(1_000_000, 2_000_000, 10_000, 25, true);
    // 10_000 * 9975 / 10000 = 9975; 2_000_000 * 9975 / 1_009_975 = 19752
    assert_eq!(res.amount_out, 19752);
    assert_eq!(res.new_price, Price { numerator: 2_000_000 - 19752, denominator: 1_010_000 });

    let res = get_amount_out(1_000_000, 2_000_000, 10_000, 25, false);
    // 1_000_000 * 9975 / 2_009_975 = 4962
    assert_eq!(res.amount_out, 4962);
    assert_eq!(res.new_price, Price { numerator: 2_010_000, denominator: 1_000_000 - 4962 });
}

#[test]
fn forward_quote_stays_below_the_output_reserve() {
    let res = get_amount_out(1, 5, u64::MAX - 1, 0, true);
    assert!(res.amount_out < 5);
    let res = get_amount_out(7, 1, u64::MAX - 7, 0, true);
    assert_eq!(res.amount_out, 0);
}

#[test]
fn forward_quote_is_refused_outside_its_domain() {
    assert!(checked_get_amount_out(0, 5, 1, 25, true).is_none());
    assert!(checked_get_amount_out(5, 0, 1, 25, true).is_none());
    assert!(checked_get_amount_out(5, 5, 1, 10000, true).is_none());
    assert!(checked_get_amount_out(5, 5, u64::MAX - 4, 25, true).is_none());
    assert!(checked_get_amount_out(5, 5, u64::MAX - 5, 25, true).is_some());
    assert!(checked_get_amount_out(5, 9, u64::MAX - 8, 25, false).is_none());
}

#[test]
fn inverse_quote_is_refused_outside_its_domain() {
    assert!(checked_get_amount_in(100, 100, 100, 25, true).is_none());
    assert!(checked_get_amount_in(100, 100, 99, 10000, true).is_none());
    assert!(checked_get_amount_in(u64::MAX, 100, 99, 25, true).is_none());
    assert!(checked_get_amount_in(0, 100, 1, 25, true).is_none());
    let res = checked_get_amount_in(100, 100, 50, 0, true);
    assert_eq!(res.map(|q| q.amount_in), Some(100));
}

#[test]
fn inverse_quote_rounds_up_twice() {
    // ceil(1000 * 10 / 990) = 11; ceil(11 * 10000 / 9975) = 12
    let res = get_amount_in(1000, 1000, 10, 25, true);
    assert_eq!(res.amount_in, 12);
    assert_eq!(res.new_price, Price { numerator: 990, denominator: 1012 });
}

#[test]
fn swap_direction_codes() {
    assert_eq!(SwapDirection::PC2Coin.code(), 1);
    assert_eq!(SwapDirection::Coin2PC.code(), 2);
}

#[test]
fn inverse_quote_never_asks_more_than_the_forward_quote_took() {
    let forward = get_amount_out(1_000_000, 2_000_000, 10_001, 25, true);
    assert_eq!(forward.amount_out, 19752);
    let inverse = get_amount_in(1_000_000, 2_000_000, forward.amount_out, 25, true);
    assert_eq!(inverse.amount_in, 10_000);
    let forward = get_amount_out(1_000_000, 2_000_000, 10_000, 25, false);
    let inverse = get_amount_in(1_000_000, 2_000_000, forward.amount_out, 25, false);
    assert!(inverse.amount_in <= 10_000);
}
