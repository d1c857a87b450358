use vstd::prelude::*;
use crate::arith::{ceil_div, mul_u64};
use crate::price::Price;

verus! {

/// The reserve that a swap pays into.
pub open spec fn input_reserve(base_reserve: u64, quote_reserve: u64, swap_for_quote: bool) -> u64 {
    if swap_for_quote {
        base_reserve
    } else {
        quote_reserve
    }
}

/// The reserve that a swap is paid from.
pub open spec fn output_reserve(base_reserve: u64, quote_reserve: u64, swap_for_quote: bool) -> u64 {
    if swap_for_quote {
        quote_reserve
    } else {
        base_reserve
    }
}

/// A price in quote units per base unit, from the output and the input
/// reserve of a swap in the given direction.
pub open spec fn oriented_price(output: int, input: int, swap_for_quote: bool) -> Price {
    if swap_for_quote {
        Price { numerator: output as u64, denominator: input as u64 }
    } else {
        Price { numerator: input as u64, denominator: output as u64 }
    }
}

/// What a pool with reserves `input` and `output` pays for `amount_in`,
/// so that the product of the reserves does not fall; rounded down.
pub open spec fn product_output(input: int, output: int, amount_in: int) -> int {
    output * amount_in / (input + amount_in)
}

/// What a pool with reserves `input` and `output` must take in to pay
/// `amount_out`, so that the product of the reserves does not fall;
/// rounded up.
pub open spec fn product_input(input: int, output: int, amount_out: int) -> int {
    ceil_div(input * amount_out, output - amount_out)
}

/// A pool with positive reserves never pays out its whole output reserve.
pub proof fn lemma_product_output_below_reserve(input: int, output: int, amount_in: int)
    requires
        input > 0,
        output > 0,
        amount_in >= 0,
    ensures
        0 <= product_output(input, output, amount_in) < output,
{
    let d = input + amount_in;
    let x = output * amount_in;
    assert(0 <= x < output * d) by (nonlinear_arith)
        requires
            x == output * amount_in,
            d == input + amount_in,
            input > 0,
            output > 0,
            amount_in >= 0,
    ;
    vstd::arithmetic::div_mod::lemma_fundamental_div_mod(x, d);
    assert(0 <= x / d < output) by (nonlinear_arith)
        requires
            x == d * (x / d) + x % d,
            0 <= x % d < d,
            0 <= x < output * d,
            d > 0,
    ;
}

/// What a pool must take in to pay the output of a swap is never more than
/// what that swap took in.
pub proof fn lemma_product_input_of_output(input: int, output: int, amount_in: int)
    requires
        input > 0,
        output > 0,
        amount_in >= 0,
    ensures
        0 <= product_input(input, output, product_output(input, output, amount_in)) <= amount_in,
{
    let y = product_output(input, output, amount_in);
    lemma_product_output_below_reserve(input, output, amount_in);
    let first = output * amount_in;
    vstd::arithmetic::div_mod::lemma_fundamental_div_mod(first, input + amount_in);
    assert(input * y <= amount_in * (output - y)) by (nonlinear_arith)
        requires
            first == output * amount_in,
            first == (input + amount_in) * y + first % (input + amount_in),
            0 <= first % (input + amount_in),
    ;
    let needed = input * y;
    let left = output - y;
    assert(needed >= 0) by (nonlinear_arith)
        requires
            needed == input * y,
            input > 0,
            y >= 0,
    ;
    vstd::arithmetic::div_mod::lemma_fundamental_div_mod(needed, left);
    assert(0 <= needed / left && (needed % left == 0 ==> needed / left <= amount_in) && (needed
        % left != 0 ==> needed / left < amount_in)) by (nonlinear_arith)
        requires
            needed == left * (needed / left) + needed % left,
            0 <= needed % left < left,
            0 <= needed <= amount_in * left,
    ;
}

/// Computes `product_output`.
pub fn constant_product_output(input: u64, output: u64, amount_in: u64) -> (out: u64)
    requires
        input > 0,
        output > 0,
    ensures
        out == product_output(input as int, output as int, amount_in as int),
        out < output,
{
    proof {
        lemma_product_output_below_reserve(input as int, output as int, amount_in as int);
    }
    (mul_u64(output, amount_in) / (input as u128 + amount_in as u128)) as u64
}

/// Computes `product_input`.
pub fn constant_product_input(input: u64, output: u64, amount_out: u64) -> (needed: u128)
    requires
        amount_out < output,
    ensures
        needed == product_input(input as int, output as int, amount_out as int),
{
    let numerator: u128 = mul_u64(input, amount_out);
    let denominator: u128 = (output - amount_out) as u128;
    assert(numerator <= 0xffff_ffff_ffff_ffff * 0xffff_ffff_ffff_ffff) by (nonlinear_arith)
        requires
            numerator == input * amount_out,
            input <= 0xffff_ffff_ffff_ffff,
            amount_out <= 0xffff_ffff_ffff_ffff,
    ;
    if numerator % denominator == 0 {
        numerator / denominator
    } else {
        numerator / denominator + 1
    }
}

/// Builds the price after a swap in the orientation of the pool.
pub fn price_after(new_output: u64, new_input: u64, swap_for_quote: bool) -> (p: Price)
    ensures
        p == oriented_price(new_output as int, new_input as int, swap_for_quote),
{
    if swap_for_quote {
        Price { numerator: new_output, denominator: new_input }
    } else {
        Price { numerator: new_input, denominator: new_output }
    }
}

} // verus!
