use arbitrage_program::arbitrage_engine::helpers::{get_price_delta, min_profitable_delta_bps};
use arbitrage_program::price::Price;

fn price(numerator: u64, denominator: u64) -> Price {
    Price::new(numerator, denominator)
}

#[test]
fn price_delta_points_at_the_cheaper_pool() {
    assert_eq!(get_price_delta(price(100, 1), price(110, 1)), (1000, true));
    assert_eq!(get_price_delta(price(110, 1), price(100, 1)), (1000, false));
}

#[test]
fn price_delta_of_equal_prices_is_zero_without_direction() {
    assert_eq!(get_price_delta(price(1, 3), price(1, 3)), (0, false));
    assert_eq!(get_price_delta(price(2, 6), price(1, 3)), (0, false));
}

#[test]
fn price_delta_is_symmetric_in_magnitude() {
    let a = price(942150070694, 35722696881401);
    let b = price(1000000000000, 35000000000000);
    let (forward, a_lower) = get_price_delta(a, b);
    let (backward, b_lower) = get_price_delta(b, a);
    assert_eq!(forward, backward);
    assert_ne!(a_lower, b_lower);
    assert!(a_lower);
}

#[test]
fn price_delta_rounds_up() {
    // (3/4 - 2/3) / (2/3) = 1/8 = 1250 bps
    assert_eq!(get_price_delta(price(2, 3), price(3, 4)), (1250, true));
    // (1/2 - 1/3) / (1/3) = 1/2 = 5000 bps; 10001/20000 against 1/2 gives 1 bps
    assert_eq!(get_price_delta(price(1, 3), price(1, 2)), (5000, true));
    assert_eq!(get_price_delta(price(10001, 20000), price(1, 2)), (1, false));
    // 3 against 7: 4/3 = 13333.3.. bps
    assert_eq!(get_price_delta(price(3, 1), price(7, 1)), (13334, true));
}

#[test]
fn price_delta_holds_at_the_limits() {
    let top = price(u64::MAX, 1);
    let bottom = price(1, u64::MAX);
    assert_eq!(get_price_delta(bottom, top), (u64::MAX, true));
    assert_eq!(get_price_delta(top, bottom), (u64::MAX, false));
    let near = price(u64::MAX - 1, u64::MAX);
    let one = price(u64::MAX, u64::MAX);
    assert_eq!(get_price_delta(near, one), (1, true));
    assert_eq!(get_price_delta(price(1, 1), price(u64::MAX, 10000)), (u64::MAX - 10000, true));
}

#[test]
fn price_comparison_is_exact() {
    assert!(price(1, 3).less_than(&price(3333333333333333334, 10000000000000000000)));
    assert!(!price(1, 3).less_than(&price(3333333333333333333, 10000000000000000000)));
    assert!(!price(1, 3).less_than(&price(2, 6)));
    assert_eq!(price(3, 7).invert(), price(7, 3));
    assert!(price(3, 7).below_one());
    assert!(!price(7, 7).below_one());
}

#[test]
fn breakeven_spread_for_two_fee_rates() {
    // 1 / (0.9975 * 0.9970) - 1 = 0.00551629.. -> 55.16.. bps
    assert_eq!(min_profitable_delta_bps(25, 30), 56);
    assert_eq!(min_profitable_delta_bps(0, 0), 0);
    // 1 / 0.99 - 1 = 101.0101.. bps
    assert_eq!(min_profitable_delta_bps(100, 0), 102);
    assert_eq!(min_profitable_delta_bps(0, 5000), 10000);
    assert_eq!(min_profitable_delta_bps(9999, 9999), 999_999_990_000);
}
