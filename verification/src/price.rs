use vstd::prelude::*;
use crate::arith::mul_u64;

verus! {

/// A price: the exact ratio of two amounts, quote units per base unit.
#[derive(Clone, Copy, Debug, PartialEq, Eq, Structural)]
pub struct Price {
    pub numerator: u64,
    pub denominator: u64,
}

impl Price {
    /// A price is well formed when both of its terms are positive.
    pub open spec fn wf(&self) -> bool {
        self.numerator > 0 && self.denominator > 0
    }

    /// `self < other` as ratios.
    pub open spec fn is_lower(&self, other: Price) -> bool {
        self.numerator * other.denominator < other.numerator * self.denominator
    }

    /// `self == other` as ratios.
    pub open spec fn is_same(&self, other: Price) -> bool {
        self.numerator * other.denominator == other.numerator * self.denominator
    }

    /// The reciprocal ratio.
    pub open spec fn inverted(&self) -> Price {
        Price { numerator: self.denominator, denominator: self.numerator }
    }

    pub fn new(numerator: u64, denominator: u64) -> (p: Price)
        ensures
            p.numerator == numerator,
            p.denominator == denominator,
    {
        Price { numerator, denominator }
    }

    /// Swaps the two terms, which turns a quote-per-base price into a
    /// base-per-quote price.
    pub fn invert(&self) -> (p: Price)
        ensures
            p == self.inverted(),
    {
        Price { numerator: self.denominator, denominator: self.numerator }
    }

    /// Compares two prices exactly, by cross multiplication.
    pub fn less_than(&self, other: &Price) -> (b: bool)
        ensures
            b == self.is_lower(*other),
    {
        mul_u64(self.numerator, other.denominator) < mul_u64(other.numerator, self.denominator)
    }

    /// Whether the price is below one quote unit per base unit.
    pub fn below_one(&self) -> (b: bool)
        ensures
            b == (self.numerator < self.denominator),
    {
        self.numerator < self.denominator
    }
}

} // verus!
