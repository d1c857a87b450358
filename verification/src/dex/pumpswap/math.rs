use vstd::prelude::*;
use crate::arith::{ceil_div, lemma_quotient_from_parts, mul_u64};
use crate::dex::constant_product::{
    constant_product_input, constant_product_output, input_reserve, oriented_price, output_reserve,
    price_after, product_input, product_output,
};
use crate::dex::structures::{AmountInResult, AmountOutResult};

verus! {

/// The sum of the fee stages' rates.
pub open spec fn sum_rates(fees: Seq<u64>) -> int
    decreases fees.len(),
{
    if fees.len() == 0 {
        0
    } else {
        sum_rates(fees.drop_last()) + fees.last()
    }
}

/// The sum of what the fee stages take from the amount `n / d`, each stage
/// rounded up on its own.
pub open spec fn sum_stage_fees(n: int, d: int, fees: Seq<u64>) -> int
    decreases fees.len(),
{
    if fees.len() == 0 {
        0
    } else {
        sum_stage_fees(n, d, fees.drop_last()) + ceil_div(n * fees.last(), d * 10000)
    }
}

/// A prefix of the stages sums to no more than all of them, and no stage
/// exceeds the sum.
pub proof fn lemma_sum_rates_prefix(fees: Seq<u64>, i: int)
    requires
        0 <= i <= fees.len(),
    ensures
        0 <= sum_rates(fees.take(i)) <= sum_rates(fees),
        i < fees.len() ==> sum_rates(fees.take(i + 1)) == sum_rates(fees.take(i)) + fees[i],
        i < fees.len() ==> fees[i] <= sum_rates(fees),
    decreases fees.len() - i,
{
    if i < fees.len() {
        assert(fees.take(i + 1).drop_last() =~= fees.take(i));
        lemma_sum_rates_prefix(fees, i + 1);
    } else {
        assert(fees.take(i) =~= fees);
    }
    lemma_sum_rates_nonnegative(fees.take(i));
}

/// The rates sum to zero or more.
pub proof fn lemma_sum_rates_nonnegative(fees: Seq<u64>)
    ensures
        0 <= sum_rates(fees),
    decreases fees.len(),
{
    if fees.len() > 0 {
        lemma_sum_rates_nonnegative(fees.drop_last());
    }
}

/// The stage fees of a prefix sum to no more than those of all stages.
pub proof fn lemma_sum_stage_fees_prefix(n: int, d: int, fees: Seq<u64>, i: int)
    requires
        0 <= n,
        0 < d,
        0 <= i <= fees.len(),
    ensures
        0 <= sum_stage_fees(n, d, fees.take(i)) <= sum_stage_fees(n, d, fees),
        i < fees.len() ==> sum_stage_fees(n, d, fees.take(i + 1)) == sum_stage_fees(
            n,
            d,
            fees.take(i),
        ) + ceil_div(n * fees[i], d * 10000),
    decreases fees.len() - i,
{
    if i < fees.len() {
        assert(fees.take(i + 1).drop_last() =~= fees.take(i));
        lemma_stage_fee_nonnegative(n, d, fees[i]);
        lemma_sum_stage_fees_prefix(n, d, fees, i + 1);
    } else {
        assert(fees.take(i) =~= fees);
    }
    lemma_sum_stage_fees_nonnegative(n, d, fees.take(i));
}

/// One stage takes zero or more.
pub proof fn lemma_stage_fee_nonnegative(n: int, d: int, rate: u64)
    requires
        0 <= n,
        0 < d,
    ensures
        0 <= ceil_div(n * rate, d * 10000),
{
    let x = n * rate;
    let m = d * 10000;
    assert(0 <= x) by (nonlinear_arith)
        requires
            x == n * rate,
            0 <= n,
            0 <= rate,
    ;
    vstd::arithmetic::div_mod::lemma_fundamental_div_mod(x, m);
    assert(0 <= x / m) by (nonlinear_arith)
        requires
            x == m * (x / m) + x % m,
            0 <= x % m < m,
            0 <= x,
            0 < m,
    ;
}

/// The stage fees sum to zero or more.
pub proof fn lemma_sum_stage_fees_nonnegative(n: int, d: int, fees: Seq<u64>)
    requires
        0 <= n,
        0 < d,
    ensures
        0 <= sum_stage_fees(n, d, fees),
    decreases fees.len(),
{
    if fees.len() > 0 {
        lemma_sum_stage_fees_nonnegative(n, d, fees.drop_last());
        lemma_stage_fee_nonnegative(n, d, fees.last());
    }
}

/// The sum of the stages' rates when it is below 100%, else `None`.
pub fn total_fee_rate(fee_multiplier: &[u64]) -> (r: Option<u64>)
    ensures
        r == if sum_rates(fee_multiplier@) < 10000 {
            Some(sum_rates(fee_multiplier@) as u64)
        } else {
            None
        },
        r matches Some(total) ==> total < 10000 && total == sum_rates(fee_multiplier@),
{
    let mut total: u64 = 0;
    let mut i: usize = 0;
    while i < fee_multiplier.len()
        invariant
            i <= fee_multiplier.len(),
            total == sum_rates(fee_multiplier@.take(i as int)),
            total < 10000,
        decreases fee_multiplier.len() - i,
    {
        let rate: u64 = fee_multiplier[i];
        proof {
            lemma_sum_rates_prefix(fee_multiplier@, i as int);
            lemma_sum_rates_prefix(fee_multiplier@, i + 1);
        }
        if rate >= 10000 - total {
            return None;
        }
        total = total + rate;
        i = i + 1;
    }
    proof {
        assert(fee_multiplier@.take(i as int) =~= fee_multiplier@);
    }
    Some(total)
}

/// What one fee stage takes from the amount `(whole * d + rest) / d`,
/// rounded up.
fn stage_fee(whole: u64, rest: u64, d: u64, rate: u64) -> (fee: u128)
    requires
        rest < d,
        rate < 10000,
    ensures
        fee == ceil_div((whole * d + rest) * rate, d * 10000),
{
    let whole_part: u128 = mul_u64(whole, rate);
    let rest_part: u128 = mul_u64(rest, rate);
    let carried: u128 = rest_part / (d as u128);
    let left: u128 = rest_part % (d as u128);
    assert(whole_part <= 0xffff_ffff_ffff_ffff * 10000 && rest_part <= 0xffff_ffff_ffff_ffff
        * 10000) by (nonlinear_arith)
        requires
            whole_part == whole * rate,
            rest_part == rest * rate,
            whole <= 0xffff_ffff_ffff_ffff,
            rest <= 0xffff_ffff_ffff_ffff,
            rate < 10000,
    ;
    let units: u128 = whole_part + carried;
    let fee_floor: u128 = units / 10000;
    let fraction: u128 = units % 10000;
    proof {
        let n = (whole * d + rest) * rate;
        vstd::arithmetic::div_mod::lemma_fundamental_div_mod(rest_part as int, d as int);
        assert(n == fee_floor * (d * 10000) + (fraction * d + left)) by (nonlinear_arith)
            requires
                n == (whole * d + rest) * rate,
                whole_part == whole * rate,
                rest_part == rest * rate,
                rest_part == d * carried + left,
                units == whole_part + carried,
                units == 10000 * fee_floor + fraction,
        ;
        assert(0 <= fraction * d + left < d * 10000) by (nonlinear_arith)
            requires
                0 <= fraction < 10000,
                0 <= left < d,
        ;
        assert(fraction * d + left == 0 <==> fraction == 0 && left == 0) by (nonlinear_arith)
            requires
                0 <= fraction,
                0 <= left,
                0 < d,
        ;
        lemma_quotient_from_parts(n, d * 10000, fee_floor as int, fraction * d + left);
    }
    if fraction == 0 && left == 0 {
        fee_floor
    } else {
        fee_floor + 1
    }
}

/// What is left of the amount `n / d`, rounded down, once every fee stage
/// has taken its part; one unit when nothing positive is left.
pub open spec fn output_after_fees(n: int, d: int, fees: Seq<u64>) -> int {
    if n / d > sum_stage_fees(n, d, fees) {
        n / d - sum_stage_fees(n, d, fees)
    } else {
        1
    }
}

/// Computes `output_after_fees` for the amount `(whole * d + rest) / d`.
fn remaining_after_fees(whole: u64, rest: u64, d: u64, fee_multiplier: &[u64]) -> (out: u64)
    requires
        rest < d,
        sum_rates(fee_multiplier@) < 10000,
    ensures
        out == output_after_fees(whole * d + rest, d as int, fee_multiplier@),
        1 <= out || whole == 0,
        out <= whole || out == 1,
{
    let ghost n: int = whole * d + rest;
    proof {
        assert(n >= 0) by (nonlinear_arith)
            requires
                n == whole * d + rest,
                whole >= 0,
                d > 0,
                rest >= 0,
        ;
        lemma_quotient_from_parts(n, d as int, whole as int, rest as int);
        lemma_sum_stage_fees_prefix(n, d as int, fee_multiplier@, 0);
        lemma_sum_stage_fees_prefix(n, d as int, fee_multiplier@, fee_multiplier@.len() as int);
    }
    if whole == 0 {
        return 1;
    }
    let mut left: u64 = whole;
    let mut i: usize = 0;
    while i < fee_multiplier.len()
        invariant
            i <= fee_multiplier.len(),
            rest < d,
            n == whole * d + rest,
            n >= 0,
            n / (d as int) == whole,
            sum_rates(fee_multiplier@) < 10000,
            0 < left <= whole,
            left == whole - sum_stage_fees(n, d as int, fee_multiplier@.take(i as int)),
        decreases fee_multiplier.len() - i,
    {
        proof {
            lemma_sum_rates_prefix(fee_multiplier@, i as int);
            lemma_sum_stage_fees_prefix(n, d as int, fee_multiplier@, i as int);
            lemma_sum_stage_fees_prefix(n, d as int, fee_multiplier@, i + 1);
        }
        let fee: u128 = stage_fee(whole, rest, d, fee_multiplier[i]);
        if fee >= left as u128 {
            return 1;
        }
        left = left - fee as u64;
        i = i + 1;
    }
    proof {
        assert(fee_multiplier@.take(i as int) =~= fee_multiplier@);
    }
    left
}

/// The part of the input that trades when the fee stages are taken from
/// the input: `amount_in / (1 + (total_rate + 1) / 10000)`, rounded down.
pub open spec fn net_amount_in(amount_in: int, total_rate: int) -> int {
    amount_in * 10000 / (10000 + total_rate + 1)
}

/// The inputs for which a forward quote exists: positive reserves, fee
/// stages that sum to less than 100%, and an input reserve that stays within
/// 64 bits.
pub open spec fn amount_out_domain(
    base_reserve: u64,
    quote_reserve: u64,
    amount_in: u64,
    fees: Seq<u64>,
    swap_for_quote: bool,
) -> bool {
    &&& base_reserve > 0
    &&& quote_reserve > 0
    &&& sum_rates(fees) < 10000
    &&& if swap_for_quote {
        base_reserve + amount_in <= u64::MAX
    } else {
        quote_reserve + net_amount_in(amount_in as int, sum_rates(fees)) <= u64::MAX
    }
}

/// The forward quote. Selling base, the stages take their fees from the
/// raw output, and the price follows the raw output. Buying base, the fee is
/// taken from the input.
pub open spec fn amount_out_result(
    base_reserve: u64,
    quote_reserve: u64,
    amount_in: u64,
    fees: Seq<u64>,
    swap_for_quote: bool,
) -> AmountOutResult {
    let input = input_reserve(base_reserve, quote_reserve, swap_for_quote);
    let output = output_reserve(base_reserve, quote_reserve, swap_for_quote);
    if swap_for_quote {
        let raw = product_output(input as int, output as int, amount_in as int);
        AmountOutResult {
            amount_out: output_after_fees(output * amount_in, input + amount_in, fees) as u64,
            new_price: oriented_price(output - raw, input + amount_in, true),
        }
    } else {
        let net = net_amount_in(amount_in as int, sum_rates(fees));
        let amount_out = product_output(input as int, output as int, net);
        AmountOutResult {
            amount_out: amount_out as u64,
            new_price: oriented_price(output - amount_out, input + net, false),
        }
    }
}

/// The fee-reduced input is never more than the input.
pub proof fn lemma_net_amount_in_bounds(amount_in: int, total_rate: int)
    requires
        amount_in >= 0,
        total_rate >= 0,
    ensures
        0 <= net_amount_in(amount_in, total_rate) <= amount_in,
{
    let x = amount_in * 10000;
    let d = 10000 + total_rate + 1;
    vstd::arithmetic::div_mod::lemma_fundamental_div_mod(x, d);
    assert(0 <= x / d <= amount_in) by (nonlinear_arith)
        requires
            x == amount_in * 10000,
            x == d * (x / d) + x % d,
            0 <= x % d < d,
            d > 10000,
            amount_in >= 0,
    ;
}

/// A forward quote pays out less than the reserve that pays it, as long as
/// that reserve holds more than the one unit that a quote never goes below.
pub proof fn lemma_amount_out_below_reserve(
    base_reserve: u64,
    quote_reserve: u64,
    amount_in: u64,
    fees: Seq<u64>,
    swap_for_quote: bool,
)
    requires
        amount_out_domain(base_reserve, quote_reserve, amount_in, fees, swap_for_quote),
        output_reserve(base_reserve, quote_reserve, swap_for_quote) > 1,
    ensures
        1 <= amount_out_result(base_reserve, quote_reserve, amount_in, fees, swap_for_quote).amount_out
            || !swap_for_quote,
        amount_out_result(base_reserve, quote_reserve, amount_in, fees, swap_for_quote).amount_out
            < output_reserve(base_reserve, quote_reserve, swap_for_quote),
{
    if swap_for_quote {
        crate::dex::constant_product::lemma_product_output_below_reserve(
            base_reserve as int,
            quote_reserve as int,
            amount_in as int,
        );
        assert(quote_reserve * amount_in >= 0) by (nonlinear_arith)
            requires
                quote_reserve >= 0,
                amount_in >= 0,
        ;
        lemma_sum_stage_fees_nonnegative(quote_reserve * amount_in, base_reserve + amount_in, fees);
    } else {
        lemma_sum_rates_nonnegative(fees);
        lemma_net_amount_in_bounds(amount_in as int, sum_rates(fees));
        crate::dex::constant_product::lemma_product_output_below_reserve(
            quote_reserve as int,
            base_reserve as int,
            net_amount_in(amount_in as int, sum_rates(fees)),
        );
    }
}

/// The forward quote, or `None` outside its domain.
pub fn checked_get_amount_out(
    base_reserve: u64,
    quote_reserve: u64,
    amount_in: u64,
    fee_multiplier: &[u64],
    swap_for_quote: bool,
) -> (r: Option<AmountOutResult>)
    ensures
        r == if amount_out_domain(
            base_reserve,
            quote_reserve,
            amount_in,
            fee_multiplier@,
            swap_for_quote,
        ) {
            Some(
                amount_out_result(
                    base_reserve,
                    quote_reserve,
                    amount_in,
                    fee_multiplier@,
                    swap_for_quote,
                ),
            )
        } else {
            None
        },
        r matches Some(q) ==> q.new_price.wf() && (q.amount_out < output_reserve(
            base_reserve,
            quote_reserve,
            swap_for_quote,
        ) || q.amount_out == 1),
{
    if base_reserve == 0 || quote_reserve == 0 {
        return None;
    }
    let total_rate: u64 = match total_fee_rate(fee_multiplier) {
        Some(t) => t,
        None => {
            return None;
        },
    };
    if swap_for_quote {
        if amount_in > u64::MAX - base_reserve {
            return None;
        }
        let numerator: u128 = mul_u64(quote_reserve, amount_in);
        let denominator: u64 = base_reserve + amount_in;
        proof {
            crate::dex::constant_product::lemma_product_output_below_reserve(
                base_reserve as int,
                quote_reserve as int,
                amount_in as int,
            );
            vstd::arithmetic::div_mod::lemma_fundamental_div_mod(
                numerator as int,
                denominator as int,
            );
            vstd::arithmetic::mul::lemma_mul_is_commutative(
                denominator as int,
                (numerator / (denominator as u128)) as int,
            );
        }
        let raw: u64 = (numerator / (denominator as u128)) as u64;
        let rest: u64 = (numerator % (denominator as u128)) as u64;
        let amount_out: u64 = remaining_after_fees(raw, rest, denominator, fee_multiplier);
        let new_price = price_after(quote_reserve - raw, denominator, true);
        Some(AmountOutResult { amount_out, new_price })
    } else {
        proof {
            lemma_net_amount_in_bounds(amount_in as int, total_rate as int);
        }
        let net: u64 = (mul_u64(amount_in, 10000) / ((10000 + total_rate + 1) as u128)) as u64;
        if net > u64::MAX - quote_reserve {
            return None;
        }
        let amount_out: u64 = constant_product_output(quote_reserve, base_reserve, net);
        let new_price = price_after(base_reserve - amount_out, quote_reserve + net, false);
        Some(AmountOutResult { amount_out, new_price })
    }
}

/// What a swap of `amount_in` pays out, and the pool's price after it.
pub fn get_amount_out(
    base_reserve: u64,
    quote_reserve: u64,
    amount_in: u64,
    fee_multiplier: &[u64],
    swap_for_quote: bool,
) -> (r: AmountOutResult)
    requires
        amount_out_domain(base_reserve, quote_reserve, amount_in, fee_multiplier@, swap_for_quote),
    ensures
        r == amount_out_result(
            base_reserve,
            quote_reserve,
            amount_in,
            fee_multiplier@,
            swap_for_quote,
        ),
        r.new_price.wf(),
        r.amount_out < output_reserve(base_reserve, quote_reserve, swap_for_quote) || r.amount_out
            == 1,
{
    checked_get_amount_out(base_reserve, quote_reserve, amount_in, fee_multiplier, swap_for_quote).unwrap()
}

/// The raw output that leaves `amount_out` once the fee stages have taken
/// their part, with a margin of two units.
pub open spec fn gross_amount_out(amount_out: int, total_rate: int) -> int {
    ceil_div(amount_out * 10000 + (10000 - total_rate), 10000 - total_rate) + 2
}

/// What a swap must take in to pay out `amount_out`. Selling base, the
/// output is first raised to its value before fees. Buying base, each stage
/// adds its fee, rounded up, to the input.
pub open spec fn swap_input(
    base_reserve: u64,
    quote_reserve: u64,
    amount_out: u64,
    fees: Seq<u64>,
    swap_for_quote: bool,
) -> int {
    if swap_for_quote {
        product_input(
            base_reserve as int,
            quote_reserve as int,
            gross_amount_out(amount_out as int, sum_rates(fees)),
        )
    } else {
        let net = product_input(quote_reserve as int, base_reserve as int, amount_out as int);
        net + sum_stage_fees(net, 1, fees)
    }
}

/// The inputs for which an inverse quote exists: positive reserves, fee
/// stages that sum to less than 100%, an output (before fees, when selling
/// base) below its reserve, and an input reserve that stays within 64 bits.
pub open spec fn amount_in_domain(
    base_reserve: u64,
    quote_reserve: u64,
    amount_out: u64,
    fees: Seq<u64>,
    swap_for_quote: bool,
) -> bool {
    &&& base_reserve > 0
    &&& quote_reserve > 0
    &&& sum_rates(fees) < 10000
    &&& amount_out < output_reserve(base_reserve, quote_reserve, swap_for_quote)
    &&& swap_for_quote ==> gross_amount_out(amount_out as int, sum_rates(fees)) < quote_reserve
    &&& input_reserve(base_reserve, quote_reserve, swap_for_quote) + swap_input(
        base_reserve,
        quote_reserve,
        amount_out,
        fees,
        swap_for_quote,
    ) <= u64::MAX
}

/// The inverse quote.
pub open spec fn amount_in_result(
    base_reserve: u64,
    quote_reserve: u64,
    amount_out: u64,
    fees: Seq<u64>,
    swap_for_quote: bool,
) -> AmountInResult {
    let input = input_reserve(base_reserve, quote_reserve, swap_for_quote);
    let output = output_reserve(base_reserve, quote_reserve, swap_for_quote);
    let amount_in = swap_input(base_reserve, quote_reserve, amount_out, fees, swap_for_quote);
    AmountInResult {
        amount_in: amount_in as u64,
        new_price: oriented_price(output - amount_out, input + amount_in, swap_for_quote),
    }
}

/// The sum of what the fee stages add to `net`, or `None` when `net` and the
/// fees together exceed `limit`.
fn added_stage_fees(net: u64, limit: u64, fee_multiplier: &[u64]) -> (r: Option<u64>)
    requires
        net <= limit,
        sum_rates(fee_multiplier@) < 10000,
    ensures
        r == if net + sum_stage_fees(net as int, 1, fee_multiplier@) <= limit {
            Some(sum_stage_fees(net as int, 1, fee_multiplier@) as u64)
        } else {
            None
        },
{
    proof {
        lemma_sum_stage_fees_prefix(net as int, 1, fee_multiplier@, 0);
    }
    let mut total: u64 = 0;
    let mut i: usize = 0;
    while i < fee_multiplier.len()
        invariant
            i <= fee_multiplier.len(),
            sum_rates(fee_multiplier@) < 10000,
            total == sum_stage_fees(net as int, 1, fee_multiplier@.take(i as int)),
            net + total <= limit,
        decreases fee_multiplier.len() - i,
    {
        proof {
            lemma_sum_rates_prefix(fee_multiplier@, i as int);
            lemma_sum_stage_fees_prefix(net as int, 1, fee_multiplier@, i as int);
            lemma_sum_stage_fees_prefix(net as int, 1, fee_multiplier@, i + 1);
            assert(net * 1 + 0 == net) by (nonlinear_arith);
        }
        let fee: u128 = stage_fee(net, 0, 1, fee_multiplier[i]);
        if fee > (limit - net - total) as u128 {
            return None;
        }
        total = total + fee as u64;
        i = i + 1;
    }
    proof {
        assert(fee_multiplier@.take(i as int) =~= fee_multiplier@);
    }
    Some(total)
}

/// The inverse quote, or `None` outside its domain.
pub fn checked_get_amount_in(
    base_reserve: u64,
    quote_reserve: u64,
    amount_out: u64,
    fee_multiplier: &[u64],
    swap_for_quote: bool,
) -> (r: Option<AmountInResult>)
    ensures
        r == if amount_in_domain(
            base_reserve,
            quote_reserve,
            amount_out,
            fee_multiplier@,
            swap_for_quote,
        ) {
            Some(
                amount_in_result(
                    base_reserve,
                    quote_reserve,
                    amount_out,
                    fee_multiplier@,
                    swap_for_quote,
                ),
            )
        } else {
            None
        },
        r matches Some(q) ==> q.new_price.wf(),
{
    if base_reserve == 0 || quote_reserve == 0 {
        return None;
    }
    let total_rate: u64 = match total_fee_rate(fee_multiplier) {
        Some(t) => t,
        None => {
            return None;
        },
    };
    if swap_for_quote {
        if amount_out >= quote_reserve {
            return None;
        }
        let fee_denominator: u64 = 10000 - total_rate;
        let scaled: u128 = mul_u64(amount_out, 10000) + fee_denominator as u128;
        let gross: u128 = if scaled % (fee_denominator as u128) == 0 {
            scaled / (fee_denominator as u128) + 2
        } else {
            scaled / (fee_denominator as u128) + 3
        };
        assert(gross == gross_amount_out(amount_out as int, total_rate as int));
        if gross >= quote_reserve as u128 {
            return None;
        }
        let amount_in: u128 = constant_product_input(base_reserve, quote_reserve, gross as u64);
        if amount_in > (u64::MAX - base_reserve) as u128 {
            return None;
        }
        let new_price = price_after(
            quote_reserve - amount_out,
            base_reserve + amount_in as u64,
            true,
        );
        Some(AmountInResult { amount_in: amount_in as u64, new_price })
    } else {
        if amount_out >= base_reserve {
            return None;
        }
        let net: u128 = constant_product_input(quote_reserve, base_reserve, amount_out);
        proof {
            lemma_sum_stage_fees_prefix(net as int, 1, fee_multiplier@, 0);
        }
        if net > (u64::MAX - quote_reserve) as u128 {
            return None;
        }
        let fees: u64 = match added_stage_fees(net as u64, u64::MAX - quote_reserve, fee_multiplier) {
            Some(f) => f,
            None => {
                return None;
            },
        };
        let amount_in: u64 = net as u64 + fees;
        let new_price = price_after(base_reserve - amount_out, quote_reserve + amount_in, false);
        Some(AmountInResult { amount_in, new_price })
    }
}

/// What a swap must take in to pay out `amount_out`, and the pool's price
/// after it.
pub fn get_amount_in(
    base_reserve: u64,
    quote_reserve: u64,
    amount_out: u64,
    fee_multiplier: &[u64],
    swap_for_quote: bool,
) -> (r: AmountInResult)
    requires
        amount_in_domain(base_reserve, quote_reserve, amount_out, fee_multiplier@, swap_for_quote),
    ensures
        r == amount_in_result(
            base_reserve,
            quote_reserve,
            amount_out,
            fee_multiplier@,
            swap_for_quote,
        ),
        r.new_price.wf(),
{
    checked_get_amount_in(base_reserve, quote_reserve, amount_out, fee_multiplier, swap_for_quote).unwrap()
}

} // verus!
