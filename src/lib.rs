pub mod create_market;
pub mod error;
pub mod key;
pub mod liquidity_pool;
pub mod market;
pub mod pricing;
pub mod program;
