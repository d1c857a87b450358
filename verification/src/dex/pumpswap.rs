pub mod accounts;
pub mod fee_math;
pub mod invocations;
pub mod math;
pub mod pumpswap_pool;
