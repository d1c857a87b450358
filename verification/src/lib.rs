//! Decision engine for two-leg arbitrage between constant-product pools.
//!
//! The crate holds the swap arithmetic of two venues, the fee-tier lookup,
//! the account-layout readers, the pool abstraction and the bounded search
//! for the most profitable input amount. Every amount is an integer and every
//! price is an exact ratio of two integers.

pub mod arbitrage_engine;
pub mod arith;
pub mod bytes;
pub mod commons;
pub mod error;
pub mod instructions;
pub mod price;
pub mod pubkey;
pub mod dex;
