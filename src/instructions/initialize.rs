//! Creating the protocol state and new vaults.
use vstd::prelude::*;
use crate::errors::VaultError;
use crate::state::{
    Address, DEFAULT_HARVEST_COOLDOWN, DEFAULT_REBALANCE_COOLDOWN, DEFAULT_REBALANCE_THRESHOLD_BPS,
    GlobalState, LEVERAGE_CAP_BPS, MAX_MANAGEMENT_FEE_BPS, MAX_PERFORMANCE_FEE_BPS,
    MIN_LEVERAGE_BPS, StrategyConfig, StrategyKind, Vault,
};

verus! {

/// Creates the protocol state with the given default fees, which must lie
/// within the protocol caps.
pub fn initialize_global_state(
    authority: Address,
    treasury: Address,
    management_fee_bps: u16,
    performance_fee_bps: u16,
) -> (r: Result<GlobalState, VaultError>)
    ensures
        management_fee_bps > MAX_MANAGEMENT_FEE_BPS || performance_fee_bps
            > MAX_PERFORMANCE_FEE_BPS ==> r == Err::<GlobalState, VaultError>(
            VaultError::InvalidFeeConfig,
        ),
        management_fee_bps <= MAX_MANAGEMENT_FEE_BPS && performance_fee_bps
            <= MAX_PERFORMANCE_FEE_BPS ==> r == Ok::<GlobalState, VaultError>(
            GlobalState {
                authority,
                treasury,
                default_management_fee_bps: management_fee_bps,
                default_performance_fee_bps: performance_fee_bps,
                paused: false,
                vault_count: 0,
            },
        ),
        r matches Ok(g) ==> g.wf(),
{
    if management_fee_bps > MAX_MANAGEMENT_FEE_BPS {
        return Err(VaultError::InvalidFeeConfig);
    }
    if performance_fee_bps > MAX_PERFORMANCE_FEE_BPS {
        return Err(VaultError::InvalidFeeConfig);
    }
    Ok(
        GlobalState {
            authority,
            treasury,
            default_management_fee_bps: management_fee_bps,
            default_performance_fee_bps: performance_fee_bps,
            paused: false,
            vault_count: 0,
        },
    )
}

/// The accounts a new vault is bound to.
#[derive(Debug, Clone, Copy, PartialEq, Eq)]
pub struct VaultAccounts {
    pub underlying_mint: Address,
    pub share_mint: Address,
    pub vault_token_account: Address,
    pub authority: Address,
}

/// The new vault and the protocol state that counts it; or the error that
/// refuses it. Unset fees come from the protocol defaults; an unset maximum
/// leverage is 1.0x.
pub open spec fn initialize_vault_spec(
    g: GlobalState,
    accounts: VaultAccounts,
    now: i64,
    strategy: u8,
    management_fee_bps: Option<u16>,
    performance_fee_bps: Option<u16>,
    max_leverage_bps: Option<u16>,
    min_deposit: u64,
) -> Result<(GlobalState, Vault), VaultError> {
    let mgmt = match management_fee_bps {
        Some(f) => f,
        None => g.default_management_fee_bps,
    };
    let perf = match performance_fee_bps {
        Some(f) => f,
        None => g.default_performance_fee_bps,
    };
    if strategy > 3 {
        Err(VaultError::InvalidStrategy)
    } else if max_leverage_bps matches Some(l) && (l < MIN_LEVERAGE_BPS || l > LEVERAGE_CAP_BPS) {
        Err(VaultError::InvalidLeverage)
    } else if mgmt > MAX_MANAGEMENT_FEE_BPS || perf > MAX_PERFORMANCE_FEE_BPS {
        Err(VaultError::InvalidFeeConfig)
    } else if g.vault_count == u64::MAX {
        Err(VaultError::MathOverflow)
    } else {
        Ok(
            (
                GlobalState { vault_count: (g.vault_count + 1) as u64, ..g },
                Vault {
                    vault_id: g.vault_count,
                    strategy: match strategy {
                        0 => StrategyKind::LpFarming,
                        1 => StrategyKind::LeveragedYield,
                        2 => StrategyKind::AutoCompound,
                        _ => StrategyKind::DeltaNeutral,
                    },
                    underlying_mint: accounts.underlying_mint,
                    share_mint: accounts.share_mint,
                    vault_token_account: accounts.vault_token_account,
                    authority: accounts.authority,
                    total_assets: 0,
                    total_shares: 0,
                    last_harvest: now,
                    last_rebalance: now,
                    management_fee_bps: mgmt,
                    performance_fee_bps: perf,
                    high_water_mark: 0,
                    accrued_management_fees: 0,
                    accrued_performance_fees: 0,
                    paused: false,
                    min_deposit,
                    max_leverage_bps: match max_leverage_bps {
                        Some(l) => l,
                        None => MIN_LEVERAGE_BPS,
                    },
                    current_leverage_bps: MIN_LEVERAGE_BPS,
                    rebalance_threshold_bps: DEFAULT_REBALANCE_THRESHOLD_BPS,
                    harvest_cooldown: DEFAULT_HARVEST_COOLDOWN,
                    rebalance_cooldown: DEFAULT_REBALANCE_COOLDOWN,
                    strategy_config: StrategyConfig::empty(),
                },
            ),
        )
    }
}

/// Creates vault number `global_state.vault_count` at `now` with strategy
/// number `strategy` (0 to 3), and counts it in the protocol state.
pub fn initialize_vault(
    global_state: &mut GlobalState,
    accounts: VaultAccounts,
    now: i64,
    strategy: u8,
    management_fee_bps: Option<u16>,
    performance_fee_bps: Option<u16>,
    max_leverage_bps: Option<u16>,
    min_deposit: u64,
) -> (r: Result<Vault, VaultError>)
    ensures
        match initialize_vault_spec(
            *old(global_state),
            accounts,
            now,
            strategy,
            management_fee_bps,
            performance_fee_bps,
            max_leverage_bps,
            min_deposit,
        ) {
            Ok((g, v)) => r == Ok::<Vault, VaultError>(v) && *final(global_state) == g,
            Err(e) => r == Err::<Vault, VaultError>(e) && *final(global_state) == *old(
                global_state,
            ),
        },
        r matches Ok(v) ==> v.wf(),
{
    let kind: StrategyKind = match StrategyKind::from_tag(strategy) {
        Some(k) => k,
        None => {
            return Err(VaultError::InvalidStrategy);
        },
    };
    if let Some(leverage) = max_leverage_bps {
        if leverage < MIN_LEVERAGE_BPS || leverage > LEVERAGE_CAP_BPS {
            return Err(VaultError::InvalidLeverage);
        }
    }
    let mgmt_fee: u16 = match management_fee_bps {
        Some(f) => f,
        None => global_state.default_management_fee_bps,
    };
    let perf_fee: u16 = match performance_fee_bps {
        Some(f) => f,
        None => global_state.default_performance_fee_bps,
    };
    if mgmt_fee > MAX_MANAGEMENT_FEE_BPS || perf_fee > MAX_PERFORMANCE_FEE_BPS {
        return Err(VaultError::InvalidFeeConfig);
    }
    let vault_count: u64 = match global_state.vault_count.checked_add(1) {
        Some(c) => c,
        None => {
            return Err(VaultError::MathOverflow);
        },
    };
    let config = StrategyConfig::default();
    let vault = Vault {
        vault_id: global_state.vault_count,
        strategy: kind,
        underlying_mint: accounts.underlying_mint,
        share_mint: accounts.share_mint,
        vault_token_account: accounts.vault_token_account,
        authority: accounts.authority,
        total_assets: 0,
        total_shares: 0,
        last_harvest: now,
        last_rebalance: now,
        management_fee_bps: mgmt_fee,
        performance_fee_bps: perf_fee,
        high_water_mark: 0,
        accrued_management_fees: 0,
        accrued_performance_fees: 0,
        paused: false,
        min_deposit,
        max_leverage_bps: match max_leverage_bps {
            Some(l) => l,
            None => MIN_LEVERAGE_BPS,
        },
        current_leverage_bps: MIN_LEVERAGE_BPS,
        rebalance_threshold_bps: DEFAULT_REBALANCE_THRESHOLD_BPS,
        harvest_cooldown: DEFAULT_HARVEST_COOLDOWN,
        rebalance_cooldown: DEFAULT_REBALANCE_COOLDOWN,
        strategy_config: config,
    };
    global_state.vault_count = vault_count;
    Ok(vault)
}

} // verus!
