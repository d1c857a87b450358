use vstd::prelude::*;

verus! {

/// Failures that abort an arbitrage attempt.
#[derive(Clone, Copy, Debug, PartialEq, Eq, Structural)]
pub enum ErrorCode {
    /// A pool cannot deliver the requested amount.
    InsufficientLiquidity,
    MeteoraUnknownBinArray,
    MeteoraNoBinArray,
    MeteoraNoBinInArray,
    /// The search found no input amount with a positive profit.
    NoArbitrageOpportunity,
    /// Account data is malformed, too short, or carries an empty fee table.
    InvalidAccount,
    /// The traded token pair does not match the pool's pair.
    TokenMintMismatch,
    /// An amount does not fit in the integer type that carries it.
    Overflow,
    /// The account's value after the attempt is below its value before.
    ArbitrageVerificationFailed,
}

} // verus!
