use vstd::prelude::*;

verus! {

/// Every way an operation on a vault can be refused.
#[derive(Debug, Clone, Copy, PartialEq, Eq, Structural)]
pub enum VaultError {
    InsufficientFunds,
    VaultPaused,
    VaultNotPaused,
    InvalidStrategy,
    RebalanceThresholdNotMet,
    RebalanceFailed,
    LiquidationNeeded,
    LiquidationNotNeeded,
    InvalidLeverage,
    MaxLeverageExceeded,
    StaleOraclePrice,
    InvalidOracle,
    Unauthorized,
    DepositTooSmall,
    WithdrawalTooLarge,
    MathOverflow,
    InvalidMint,
    HarvestNotReady,
    InvalidFeeConfig,
    PositionNotFound,
    InvalidRebalanceParams,
    SlippageExceeded,
    StrategyNotInitialized,
    InvalidTimestamp,
    CompoundingCooldown,
}

impl VaultError {
    /// A short human-readable description of the error.
    pub fn message(&self) -> (r: &'static str) {
        match self {
            VaultError::InsufficientFunds => "Insufficient funds in vault",
            VaultError::VaultPaused => "Vault is paused",
            VaultError::VaultNotPaused => "Vault is not paused",
            VaultError::InvalidStrategy => "Invalid vault strategy",
            VaultError::RebalanceThresholdNotMet => "Rebalance threshold not met",
            VaultError::RebalanceFailed => "Rebalance failed",
            VaultError::LiquidationNeeded => "Liquidation needed - health factor too low",
            VaultError::LiquidationNotNeeded => "Liquidation not needed - health factor safe",
            VaultError::InvalidLeverage => "Invalid leverage ratio",
            VaultError::MaxLeverageExceeded => "Maximum leverage exceeded",
            VaultError::StaleOraclePrice => "Oracle price stale or invalid",
            VaultError::InvalidOracle => "Invalid oracle account",
            VaultError::Unauthorized => "Unauthorized - not vault authority",
            VaultError::DepositTooSmall => "Invalid deposit amount - below minimum",
            VaultError::WithdrawalTooLarge => "Invalid withdrawal amount - exceeds balance",
            VaultError::MathOverflow => "Math overflow",
            VaultError::InvalidMint => "Invalid token mint",
            VaultError::HarvestNotReady => "Harvest not available yet",
            VaultError::InvalidFeeConfig => "Invalid fee configuration",
            VaultError::PositionNotFound => "Position not found",
            VaultError::InvalidRebalanceParams => "Invalid rebalance parameters",
            VaultError::SlippageExceeded => "Slippage tolerance exceeded",
            VaultError::StrategyNotInitialized => "Strategy not initialized",
            VaultError::InvalidTimestamp => "Invalid timestamp",
            VaultError::CompoundingCooldown => "Compounding cooldown not expired",
        }
    }
}

} // verus!
