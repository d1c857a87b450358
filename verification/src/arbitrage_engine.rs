pub mod base_pool_trait;
pub mod helpers;
pub mod structures;
pub mod universal;
