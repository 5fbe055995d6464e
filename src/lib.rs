//! Share-based vault accounting and leverage-risk engine.
//!
//! The library holds the arithmetic and the state transitions of a pooled
//! yield vault: share minting and redemption, fee accrual against a
//! high-water mark, health-factor and liquidation sizing, leverage
//! adjustment, and the cooldown and deviation gates of rebalancing. Every
//! operation either commits all of its field updates or leaves the vault as
//! it was and returns a [`errors::VaultError`].
pub mod errors;
pub mod guarantees;
pub mod instructions;
pub mod math;
pub mod state;
pub mod utils;
