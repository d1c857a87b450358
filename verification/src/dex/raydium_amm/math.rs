use vstd::prelude::*;
use crate::arith::{ceil_div, mul_u64};
use crate::dex::constant_product::{
    constant_product_input, constant_product_output, input_reserve, lemma_product_input_of_output,
    lemma_product_output_below_reserve, output_reserve, oriented_price, price_after, product_input,
    product_output,
};
use crate::dex::structures::{AmountInResult, AmountOutResult};

verus! {

/// The side that a swap pays in.
#[derive(Copy, Clone, Debug, Eq, PartialEq, Structural)]
pub enum SwapDirection {
    /// Pays pc, receives coin.
    PC2Coin,
    /// Pays coin, receives pc.
    Coin2PC,
}

impl SwapDirection {
    /// The number by which the venue knows the direction.
    pub open spec fn code_of(self) -> u64 {
        match self {
            SwapDirection::PC2Coin => 1,
            SwapDirection::Coin2PC => 2,
        }
    }

    pub fn code(self) -> (c: u64)
        ensures
            c == self.code_of(),
    {
        match self {
            SwapDirection::PC2Coin => 1,
            SwapDirection::Coin2PC => 2,
        }
    }
}

/// Subtracts the undistributed profit of each side from its reserve and
/// returns the tradable reserves as `(coin, pc)`.
pub fn calc_total_without_take_pnl_no_orderbook(
    base_reserve: u64,
    quote_reserve: u64,
    need_take_pnl_pc: u64,
    need_take_pnl_coin: u64,
) -> (r: (u64, u64))
    requires
        need_take_pnl_coin <= base_reserve,
        need_take_pnl_pc <= quote_reserve,
    ensures
        r.0 == base_reserve - need_take_pnl_coin,
        r.1 == quote_reserve - need_take_pnl_pc,
{
    (base_reserve - need_take_pnl_coin, quote_reserve - need_take_pnl_pc)
}

/// The part of the input that trades once the fee is taken, rounded down.
pub open spec fn amount_in_with_fee(amount_in: int, fee_bps: int) -> int {
    amount_in * (10000 - fee_bps) / 10000
}

/// The constant-product output for an input, with the fee taken from the
/// input first.
pub open spec fn swap_output(input: int, output: int, amount_in: int, fee_bps: int) -> int {
    product_output(input, output, amount_in_with_fee(amount_in, fee_bps))
}

/// The inputs for which a forward quote exists: positive reserves, a fee
/// below 100%, and an input reserve that stays within 64 bits.
pub open spec fn amount_out_domain(
    base_reserve: u64,
    quote_reserve: u64,
    amount_in: u64,
    fee_bps: u64,
    swap_for_quote: bool,
) -> bool {
    &&& base_reserve > 0
    &&& quote_reserve > 0
    &&& fee_bps < 10000
    &&& input_reserve(base_reserve, quote_reserve, swap_for_quote) + amount_in <= u64::MAX
}

/// The forward quote.
pub open spec fn amount_out_result(
    base_reserve: u64,
    quote_reserve: u64,
    amount_in: u64,
    fee_bps: u64,
    swap_for_quote: bool,
) -> AmountOutResult {
    let input = input_reserve(base_reserve, quote_reserve, swap_for_quote);
    let output = output_reserve(base_reserve, quote_reserve, swap_for_quote);
    let amount_out = swap_output(input as int, output as int, amount_in as int, fee_bps as int);
    AmountOutResult {
        amount_out: amount_out as u64,
        new_price: oriented_price(output - amount_out, input + amount_in, swap_for_quote),
    }
}

/// The fee never adds to the input, and a swap never pays out the whole
/// output reserve.
pub proof fn lemma_swap_output_below_reserve(input: int, output: int, amount_in: int, fee_bps: int)
    requires
        input > 0,
        output > 0,
        amount_in >= 0,
        0 <= fee_bps <= 10000,
    ensures
        0 <= amount_in_with_fee(amount_in, fee_bps) <= amount_in,
        0 <= swap_output(input, output, amount_in, fee_bps) < output,
{
    let scaled = amount_in * (10000 - fee_bps);
    assert(0 <= scaled <= amount_in * 10000) by (nonlinear_arith)
        requires
            amount_in >= 0,
            0 <= fee_bps <= 10000,
            scaled == amount_in * (10000 - fee_bps),
    ;
    vstd::arithmetic::div_mod::lemma_fundamental_div_mod(scaled, 10000);
    lemma_product_output_below_reserve(input, output, amount_in_with_fee(amount_in, fee_bps));
}

/// The forward quote, or `None` outside its domain.
pub fn checked_get_amount_out(
    base_reserve: u64,
    quote_reserve: u64,
    amount_in: u64,
    fee_multiplier: u64,
    swap_for_quote: bool,
) -> (r: Option<AmountOutResult>)
    ensures
        r == if amount_out_domain(
            base_reserve,
            quote_reserve,
            amount_in,
            fee_multiplier,
            swap_for_quote,
        ) {
            Some(
                amount_out_result(
                    base_reserve,
                    quote_reserve,
                    amount_in,
                    fee_multiplier,
                    swap_for_quote,
                ),
            )
        } else {
            None
        },
        r matches Some(q) ==> q.new_price.wf() && q.amount_out < output_reserve(
            base_reserve,
            quote_reserve,
            swap_for_quote,
        ) && q.amount_out == swap_output(
            input_reserve(base_reserve, quote_reserve, swap_for_quote) as int,
            output_reserve(base_reserve, quote_reserve, swap_for_quote) as int,
            amount_in as int,
            fee_multiplier as int,
        ),
{
    let (input, output) = if swap_for_quote {
        (base_reserve, quote_reserve)
    } else {
        (quote_reserve, base_reserve)
    };
    if base_reserve == 0 || quote_reserve == 0 || fee_multiplier >= 10000 || amount_in > u64::MAX
        - input {
        return None;
    }
    proof {
        lemma_swap_output_below_reserve(
            input as int,
            output as int,
            amount_in as int,
            fee_multiplier as int,
        );
    }
    let with_fee: u64 = (mul_u64(amount_in, 10000 - fee_multiplier) / 10000) as u64;
    let amount_out: u64 = constant_product_output(input, output, with_fee);
    let new_price = price_after(output - amount_out, input + amount_in, swap_for_quote);
    Some(AmountOutResult { amount_out, new_price })
}

/// What a swap of `amount_in` pays out, and the pool's price after it.
/// The fee is taken from the input. The output stays below the reserve
/// that pays it.
pub fn get_amount_out(
    base_reserve: u64,
    quote_reserve: u64,
    amount_in: u64,
    fee_multiplier: u64,
    swap_for_quote: bool,
) -> (r: AmountOutResult)
    requires
        amount_out_domain(base_reserve, quote_reserve, amount_in, fee_multiplier, swap_for_quote),
    ensures
        r == amount_out_result(base_reserve, quote_reserve, amount_in, fee_multiplier, swap_for_quote),
        r.amount_out == swap_output(
            input_reserve(base_reserve, quote_reserve, swap_for_quote) as int,
            output_reserve(base_reserve, quote_reserve, swap_for_quote) as int,
            amount_in as int,
            fee_multiplier as int,
        ),
        r.amount_out < output_reserve(base_reserve, quote_reserve, swap_for_quote),
        r.new_price.wf(),
{
    checked_get_amount_out(base_reserve, quote_reserve, amount_in, fee_multiplier, swap_for_quote).unwrap()
}

/// The input that a swap needs before the fee is added, rounded up.
pub open spec fn amount_in_before_fee(input: int, output: int, amount_out: int) -> int {
    product_input(input, output, amount_out)
}

/// The input that a swap needs to pay out `amount_out`, fee included,
/// rounded up.
pub open spec fn swap_input(input: int, output: int, amount_out: int, fee_bps: int) -> int {
    ceil_div(amount_in_before_fee(input, output, amount_out) * 10000, 10000 - fee_bps)
}

/// The inputs for which an inverse quote exists: positive reserves, a fee
/// below 100%, an output below its reserve, and an input reserve that stays
/// within 64 bits.
pub open spec fn amount_in_domain(
    base_reserve: u64,
    quote_reserve: u64,
    amount_out: u64,
    fee_bps: u64,
    swap_for_quote: bool,
) -> bool {
    &&& base_reserve > 0
    &&& quote_reserve > 0
    &&& fee_bps < 10000
    &&& amount_out < output_reserve(base_reserve, quote_reserve, swap_for_quote)
    &&& input_reserve(base_reserve, quote_reserve, swap_for_quote) + swap_input(
        input_reserve(base_reserve, quote_reserve, swap_for_quote) as int,
        output_reserve(base_reserve, quote_reserve, swap_for_quote) as int,
        amount_out as int,
        fee_bps as int,
    ) <= u64::MAX
}

/// The inverse quote.
pub open spec fn amount_in_result(
    base_reserve: u64,
    quote_reserve: u64,
    amount_out: u64,
    fee_bps: u64,
    swap_for_quote: bool,
) -> AmountInResult {
    let input = input_reserve(base_reserve, quote_reserve, swap_for_quote);
    let output = output_reserve(base_reserve, quote_reserve, swap_for_quote);
    let amount_in = swap_input(input as int, output as int, amount_out as int, fee_bps as int);
    AmountInResult {
        amount_in: amount_in as u64,
        new_price: oriented_price(output - amount_out, input + amount_in, swap_for_quote),
    }
}

/// Rounding up a quotient whose divisor is at most the factor by which the
/// dividend was scaled gives at least the unscaled value.
pub proof fn lemma_scaled_ceil_at_least(value: int, scale: int, divisor: int)
    requires
        value >= 0,
        0 < divisor <= scale,
    ensures
        ceil_div(value * scale, divisor) >= value,
{
    let x = value * scale;
    vstd::arithmetic::div_mod::lemma_fundamental_div_mod(x, divisor);
    assert(x / divisor >= value) by (nonlinear_arith)
        requires
            x == value * scale,
            x == divisor * (x / divisor) + x % divisor,
            0 <= x % divisor < divisor,
            value >= 0,
            0 < divisor <= scale,
    ;
}

/// The inverse quote for what a forward quote pays never asks for more than
/// the forward quote took in.
pub proof fn lemma_swap_input_of_output(input: int, output: int, amount_in: int, fee_bps: int)
    requires
        input > 0,
        output > 0,
        amount_in >= 0,
        0 <= fee_bps < 10000,
    ensures
        0 <= swap_input(input, output, swap_output(input, output, amount_in, fee_bps), fee_bps)
            <= amount_in,
{
    let with_fee = amount_in_with_fee(amount_in, fee_bps);
    let kept = 10000 - fee_bps;
    lemma_swap_output_below_reserve(input, output, amount_in, fee_bps);
    lemma_product_input_of_output(input, output, with_fee);
    let before_fee = amount_in_before_fee(
        input,
        output,
        swap_output(input, output, amount_in, fee_bps),
    );
    let scaled_in = amount_in * kept;
    vstd::arithmetic::div_mod::lemma_fundamental_div_mod(scaled_in, 10000);
    let scaled = before_fee * 10000;
    assert(0 <= scaled <= amount_in * kept) by (nonlinear_arith)
        requires
            scaled == before_fee * 10000,
            0 <= before_fee <= with_fee,
            scaled_in == amount_in * kept,
            scaled_in == 10000 * with_fee + scaled_in % 10000,
            0 <= scaled_in % 10000,
    ;
    vstd::arithmetic::div_mod::lemma_fundamental_div_mod(scaled, kept);
    assert(0 <= scaled / kept && (scaled % kept == 0 ==> scaled / kept <= amount_in) && (scaled
        % kept != 0 ==> scaled / kept < amount_in)) by (nonlinear_arith)
        requires
            scaled == kept * (scaled / kept) + scaled % kept,
            0 <= scaled % kept < kept,
            0 <= scaled <= amount_in * kept,
    ;
}

/// The inverse quote, or `None` outside its domain.
pub fn checked_get_amount_in(
    base_reserve: u64,
    quote_reserve: u64,
    amount_out: u64,
    fee_multiplier: u64,
    swap_for_quote: bool,
) -> (r: Option<AmountInResult>)
    ensures
        r == if amount_in_domain(
            base_reserve,
            quote_reserve,
            amount_out,
            fee_multiplier,
            swap_for_quote,
        ) {
            Some(
                amount_in_result(
                    base_reserve,
                    quote_reserve,
                    amount_out,
                    fee_multiplier,
                    swap_for_quote,
                ),
            )
        } else {
            None
        },
        r matches Some(q) ==> q.new_price.wf(),
{
    let (input, output) = if swap_for_quote {
        (base_reserve, quote_reserve)
    } else {
        (quote_reserve, base_reserve)
    };
    if base_reserve == 0 || quote_reserve == 0 || fee_multiplier >= 10000 || amount_out >= output {
        return None;
    }
    let before_fee: u128 = constant_product_input(input, output, amount_out);
    let fee_denominator: u64 = 10000 - fee_multiplier;
    proof {
        lemma_scaled_ceil_at_least(before_fee as int, 10000, fee_denominator as int);
    }
    if before_fee > 0xffff_ffff_ffff_ffff {
        return None;
    }
    let scaled: u128 = before_fee * 10000;
    let amount_in: u128 = if scaled % (fee_denominator as u128) == 0 {
        scaled / (fee_denominator as u128)
    } else {
        scaled / (fee_denominator as u128) + 1
    };
    assert(amount_in == swap_input(
        input as int,
        output as int,
        amount_out as int,
        fee_multiplier as int,
    ));
    if amount_in > (u64::MAX - input) as u128 {
        return None;
    }
    let new_price = price_after(output - amount_out, input + amount_in as u64, swap_for_quote);
    Some(AmountInResult { amount_in: amount_in as u64, new_price })
}

/// What a swap must take in to pay out `amount_out`, and the pool's price
/// after it.
pub fn get_amount_in(
    base_reserve: u64,
    quote_reserve: u64,
    amount_out: u64,
    fee_multiplier: u64,
    swap_for_quote: bool,
) -> (r: AmountInResult)
    requires
        amount_in_domain(base_reserve, quote_reserve, amount_out, fee_multiplier, swap_for_quote),
    ensures
        r == amount_in_result(base_reserve, quote_reserve, amount_out, fee_multiplier, swap_for_quote),
        r.amount_in == swap_input(
            input_reserve(base_reserve, quote_reserve, swap_for_quote) as int,
            output_reserve(base_reserve, quote_reserve, swap_for_quote) as int,
            amount_out as int,
            fee_multiplier as int,
        ),
        r.new_price.wf(),
{
    checked_get_amount_in(base_reserve, quote_reserve, amount_out, fee_multiplier, swap_for_quote).unwrap()
}

} // verus!
