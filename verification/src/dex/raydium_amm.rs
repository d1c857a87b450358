pub mod accounts;
pub mod invocations;
pub mod math;
pub mod raydium_amm_pool;
pub mod round_trip;
pub mod typedefs;
