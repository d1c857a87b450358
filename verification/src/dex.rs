pub mod constant_product;
pub mod mints;
pub mod pumpswap;
pub mod raydium_amm;
pub mod structures;
