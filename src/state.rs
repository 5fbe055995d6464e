//! The aggregates that operations read and update.
use vstd::prelude::*;

verus! {

/// A 32-byte account identity (a public key).
pub type Address = [u8; 32];

/// Highest management fee a vault may charge, in basis points per year.
pub const MAX_MANAGEMENT_FEE_BPS: u16 = 1000;

/// Highest performance fee a vault may charge, in basis points of the gain.
pub const MAX_PERFORMANCE_FEE_BPS: u16 = 5000;

/// Unlevered position: 1.0x.
pub const MIN_LEVERAGE_BPS: u16 = 10000;

/// Highest leverage a vault may be configured for: 5.0x.
pub const LEVERAGE_CAP_BPS: u16 = 50000;

/// Collateral factor used when the strategy sets none.
pub const DEFAULT_COLLATERAL_FACTOR_BPS: u16 = 8000;

/// Liquidation threshold used when the strategy sets none: 1.1x.
pub const DEFAULT_LIQUIDATION_THRESHOLD_BPS: u16 = 11000;

/// Debt repaid per unit of seized collateral, in basis points (a 5% bonus).
pub const LIQUIDATION_BONUS_BPS: u16 = 10500;

/// Oldest oracle price, in seconds, that rebalancing and liquidation accept.
pub const ORACLE_MAX_AGE_SECONDS: i64 = 300;

/// Allocation deviation that a new vault tolerates before rebalancing.
pub const DEFAULT_REBALANCE_THRESHOLD_BPS: u16 = 500;

/// Seconds between harvests of a new vault.
pub const DEFAULT_HARVEST_COOLDOWN: i64 = 3600;

/// Seconds between rebalances of a new vault.
pub const DEFAULT_REBALANCE_COOLDOWN: i64 = 86400;

/// Protocol-wide configuration, created once.
#[derive(Debug, Clone, Copy, PartialEq, Eq)]
pub struct GlobalState {
    pub authority: Address,
    pub treasury: Address,
    pub default_management_fee_bps: u16,
    pub default_performance_fee_bps: u16,
    pub paused: bool,
    pub vault_count: u64,
}

impl GlobalState {
    /// The default fees lie within the protocol caps.
    pub open spec fn wf(&self) -> bool {
        &&& self.default_management_fee_bps <= MAX_MANAGEMENT_FEE_BPS
        &&& self.default_performance_fee_bps <= MAX_PERFORMANCE_FEE_BPS
    }
}

/// The kind of yield strategy a vault runs.
#[derive(Debug, Clone, Copy, PartialEq, Eq, Structural)]
pub enum StrategyKind {
    LpFarming,
    LeveragedYield,
    AutoCompound,
    DeltaNeutral,
}

impl StrategyKind {
    pub open spec fn tag_spec(&self) -> u8 {
        match self {
            StrategyKind::LpFarming => 0,
            StrategyKind::LeveragedYield => 1,
            StrategyKind::AutoCompound => 2,
            StrategyKind::DeltaNeutral => 3,
        }
    }

    /// The strategy numbered `tag` (0 to 3), if any.
    pub fn from_tag(tag: u8) -> (r: Option<StrategyKind>)
        ensures
            tag <= 3 <==> r is Some,
            r matches Some(k) ==> k.tag_spec() == tag,
    {
        match tag {
            0 => Some(StrategyKind::LpFarming),
            1 => Some(StrategyKind::LeveragedYield),
            2 => Some(StrategyKind::AutoCompound),
            3 => Some(StrategyKind::DeltaNeutral),
            _ => None,
        }
    }

    /// The number of this strategy.
    pub fn tag(&self) -> (r: u8)
        ensures
            r == self.tag_spec(),
            r <= 3,
    {
        match self {
            StrategyKind::LpFarming => 0,
            StrategyKind::LeveragedYield => 1,
            StrategyKind::AutoCompound => 2,
            StrategyKind::DeltaNeutral => 3,
        }
    }
}

/// Strategy-specific settings embedded in a vault.
#[derive(Debug, Clone, Copy, PartialEq, Eq)]
pub struct StrategyConfig {
    /// Pool of an LP strategy.
    pub pool_address: Option<Address>,
    /// Lending protocol of a leveraged strategy.
    pub lending_protocol: Option<Address>,
    /// Share of collateral value that counts towards health, in basis points.
    pub collateral_factor_bps: Option<u16>,
    /// Hedge position of a delta-neutral strategy.
    pub hedge_position: Option<Address>,
    /// Target allocation over up to four assets, in basis points.
    pub target_allocations: [u16; 4],
    /// Current allocation over up to four assets, in basis points.
    pub current_allocations: [u16; 4],
    /// Price feed that must be fresh before allocations change.
    pub oracle_price_feed: Option<Address>,
    /// Health factor below which a position may be liquidated.
    pub liquidation_threshold_bps: Option<u16>,
}

impl StrategyConfig {
    /// A configuration with nothing set and all allocations zero.
    pub open spec fn empty() -> StrategyConfig {
        StrategyConfig {
            pool_address: None,
            lending_protocol: None,
            collateral_factor_bps: None,
            hedge_position: None,
            target_allocations: [0u16, 0u16, 0u16, 0u16],
            current_allocations: [0u16, 0u16, 0u16, 0u16],
            oracle_price_feed: None,
            liquidation_threshold_bps: None,
        }
    }

    pub open spec fn collateral_factor_spec(&self) -> u16 {
        match self.collateral_factor_bps {
            Some(f) => f,
            None => DEFAULT_COLLATERAL_FACTOR_BPS,
        }
    }

    pub open spec fn liquidation_threshold_spec(&self) -> u16 {
        match self.liquidation_threshold_bps {
            Some(t) => t,
            None => DEFAULT_LIQUIDATION_THRESHOLD_BPS,
        }
    }

    /// The collateral factor, or its default when unset.
    pub fn collateral_factor(&self) -> (r: u16)
        ensures
            r == self.collateral_factor_spec(),
    {
        match self.collateral_factor_bps {
            Some(f) => f,
            None => DEFAULT_COLLATERAL_FACTOR_BPS,
        }
    }

    /// The liquidation threshold, or its default when unset.
    pub fn liquidation_threshold(&self) -> (r: u16)
        ensures
            r == self.liquidation_threshold_spec(),
    {
        match self.liquidation_threshold_bps {
            Some(t) => t,
            None => DEFAULT_LIQUIDATION_THRESHOLD_BPS,
        }
    }
}

impl Default for StrategyConfig {
    fn default() -> (r: StrategyConfig)
        ensures
            r == StrategyConfig::empty(),
    {
        StrategyConfig {
            pool_address: None,
            lending_protocol: None,
            collateral_factor_bps: None,
            hedge_position: None,
            target_allocations: [0, 0, 0, 0],
            current_allocations: [0, 0, 0, 0],
            oracle_price_feed: None,
            liquidation_threshold_bps: None,
        }
    }
}

/// One managed pool.
#[derive(Debug, Clone, Copy, PartialEq, Eq)]
pub struct Vault {
    pub vault_id: u64,
    pub strategy: StrategyKind,
    pub underlying_mint: Address,
    pub share_mint: Address,
    pub vault_token_account: Address,
    pub authority: Address,
    /// Underlying assets under management.
    pub total_assets: u64,
    /// Shares outstanding.
    pub total_shares: u64,
    pub last_harvest: i64,
    pub last_rebalance: i64,
    pub management_fee_bps: u16,
    pub performance_fee_bps: u16,
    /// Highest NAV per share recorded.
    pub high_water_mark: u64,
    pub accrued_management_fees: u64,
    pub accrued_performance_fees: u64,
    pub paused: bool,
    pub min_deposit: u64,
    pub max_leverage_bps: u16,
    pub current_leverage_bps: u16,
    pub rebalance_threshold_bps: u16,
    pub harvest_cooldown: i64,
    pub rebalance_cooldown: i64,
    pub strategy_config: StrategyConfig,
}

impl Vault {
    /// The configuration bounds that every operation preserves.
    pub open spec fn wf(&self) -> bool {
        &&& self.management_fee_bps <= MAX_MANAGEMENT_FEE_BPS
        &&& self.performance_fee_bps <= MAX_PERFORMANCE_FEE_BPS
        &&& MIN_LEVERAGE_BPS <= self.max_leverage_bps <= LEVERAGE_CAP_BPS
        &&& self.current_leverage_bps <= self.max_leverage_bps
        &&& self.harvest_cooldown >= 0
        &&& self.rebalance_cooldown >= 0
    }
}

/// One user's leveraged position in a vault.
#[derive(Debug, Clone, Copy, PartialEq, Eq)]
pub struct UserPosition {
    pub user: Address,
    pub vault: Address,
    pub shares: u64,
    pub leverage_bps: u16,
    pub collateral: u64,
    pub debt: u64,
    pub last_interaction: i64,
}

/// Record of a rebalance in progress.
#[derive(Debug, Clone, Copy, PartialEq, Eq)]
pub struct RebalanceState {
    pub vault: Address,
    pub rebalancer: Address,
    pub assets_before: u64,
    pub target_allocation: [u16; 4],
    pub timestamp: i64,
}

} // verus!
