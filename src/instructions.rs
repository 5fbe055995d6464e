//! The operations on a vault. Each one checks its gates, computes every new
//! value, and writes the vault only once nothing can fail any more.
pub mod deposit;
pub mod harvest;
pub mod initialize;
pub mod liquidate;
pub mod pause;
pub mod rebalance;
pub mod withdraw;
