use vstd::prelude::*;
use crate::price::Price;

verus! {

/// A forward quote: what a swap pays out, and the pool's price after it.
#[derive(Clone, Copy, Debug, PartialEq, Eq, Structural)]
pub struct AmountOutResult {
    pub amount_out: u64,
    pub new_price: Price,
}

/// An inverse quote: what a swap must take in, and the pool's price after
/// it.
#[derive(Clone, Copy, Debug, PartialEq, Eq, Structural)]
pub struct AmountInResult {
    pub amount_in: u64,
    pub new_price: Price,
}

} // verus!
