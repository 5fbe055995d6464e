//! Rebalancing allocations and updating a vault's configuration.
use vstd::prelude::*;
use crate::errors::VaultError;
use crate::state::{MAX_MANAGEMENT_FEE_BPS, MAX_PERFORMANCE_FEE_BPS, StrategyConfig, Vault};
use crate::utils::{can_rebalance, cooldown_elapsed_spec, deviation_exceeds, should_rebalance};

verus! {

/// Sum of a four-slot allocation, in basis points.
pub open spec fn allocation_sum(a: Seq<u16>) -> int {
    a[0] + a[1] + a[2] + a[3]
}

/// The vault after its allocation is moved to `target` at `now`; or the
/// error that refuses it.
pub open spec fn rebalance_spec(v: Vault, now: i64, target: [u16; 4], oracle_is_fresh: bool) -> Result<
    Vault,
    VaultError,
> {
    if v.paused {
        Err(VaultError::VaultPaused)
    } else {
        match cooldown_elapsed_spec(now, v.last_rebalance, v.rebalance_cooldown) {
            Err(e) => Err(e),
            Ok(ready) => if !ready {
                Err(VaultError::RebalanceThresholdNotMet)
            } else if allocation_sum(target@) != 10000 {
                Err(VaultError::InvalidRebalanceParams)
            } else if !deviation_exceeds(
                v.strategy_config.current_allocations@,
                target@,
                v.rebalance_threshold_bps,
            ) {
                Err(VaultError::RebalanceThresholdNotMet)
            } else if v.strategy_config.oracle_price_feed is Some && !oracle_is_fresh {
                Err(VaultError::StaleOraclePrice)
            } else {
                Ok(
                    Vault {
                        strategy_config: StrategyConfig {
                            current_allocations: target,
                            target_allocations: target,
                            ..v.strategy_config
                        },
                        last_rebalance: now,
                        ..v
                    },
                )
            },
        }
    }
}

/// Records a move of the vault's allocation to `target_allocations` at
/// `now`. Both the cooldown since the last rebalance and a deviation above
/// the threshold in some slot are required; the target must sum to 10000
/// basis points; and the vault's price feed, if configured, must be fresh
/// (`oracle_is_fresh`). Moving the assets is left to the caller.
pub fn rebalance(
    vault: &mut Vault,
    now: i64,
    target_allocations: [u16; 4],
    oracle_is_fresh: bool,
) -> (r: Result<(), VaultError>)
    ensures
        match rebalance_spec(*old(vault), now, target_allocations, oracle_is_fresh) {
            Ok(v) => r is Ok && *final(vault) == v,
            Err(e) => r == Err::<(), VaultError>(e) && *final(vault) == *old(vault),
        },
        r is Ok ==> allocation_sum(final(vault).strategy_config.current_allocations@) == 10000,
        old(vault).wf() ==> final(vault).wf(),
{
    if vault.paused {
        return Err(VaultError::VaultPaused);
    }
    match can_rebalance(vault, now) {
        Err(e) => {
            return Err(e);
        },
        Ok(ready) => {
            if !ready {
                return Err(VaultError::RebalanceThresholdNotMet);
            }
        },
    }
    let sum: u32 = target_allocations[0] as u32 + target_allocations[1] as u32
        + target_allocations[2] as u32 + target_allocations[3] as u32;
    if sum != 10000 {
        return Err(VaultError::InvalidRebalanceParams);
    }
    if !should_rebalance(
        &vault.strategy_config.current_allocations,
        &target_allocations,
        vault.rebalance_threshold_bps,
    ) {
        return Err(VaultError::RebalanceThresholdNotMet);
    }
    if vault.strategy_config.oracle_price_feed.is_some() && !oracle_is_fresh {
        return Err(VaultError::StaleOraclePrice);
    }
    vault.strategy_config.current_allocations = target_allocations;
    vault.strategy_config.target_allocations = target_allocations;
    vault.last_rebalance = now;
    Ok(())
}

/// Replaces the vault's strategy configuration; `authorized` says whether the
/// caller is the vault's authority.
pub fn update_strategy_config(
    vault: &mut Vault,
    authorized: bool,
    strategy_config: StrategyConfig,
) -> (r: Result<(), VaultError>)
    ensures
        !authorized ==> r == Err::<(), VaultError>(VaultError::Unauthorized),
        authorized && old(vault).paused ==> r == Err::<(), VaultError>(VaultError::VaultPaused),
        authorized && !old(vault).paused ==> r is Ok,
        r is Ok ==> *final(vault) == (Vault { strategy_config, ..*old(vault) }),
        r is Err ==> *final(vault) == *old(vault),
        old(vault).wf() ==> final(vault).wf(),
{
    if !authorized {
        return Err(VaultError::Unauthorized);
    }
    if vault.paused {
        return Err(VaultError::VaultPaused);
    }
    vault.strategy_config = strategy_config;
    Ok(())
}

/// The value of an optional update: the new value if given, else the current one.
pub open spec fn updated<T>(update: Option<T>, current: T) -> T {
    match update {
        Some(x) => x,
        None => current,
    }
}

/// The vault after a parameter update; or the error that refuses it.
pub open spec fn update_vault_params_spec(
    v: Vault,
    authorized: bool,
    management_fee_bps: Option<u16>,
    performance_fee_bps: Option<u16>,
    harvest_cooldown: Option<i64>,
    rebalance_cooldown: Option<i64>,
    rebalance_threshold_bps: Option<u16>,
    min_deposit: Option<u64>,
) -> Result<Vault, VaultError> {
    if !authorized {
        Err(VaultError::Unauthorized)
    } else if v.paused {
        Err(VaultError::VaultPaused)
    } else if (management_fee_bps matches Some(f) && f > MAX_MANAGEMENT_FEE_BPS) || (
    performance_fee_bps matches Some(f) && f > MAX_PERFORMANCE_FEE_BPS) {
        Err(VaultError::InvalidFeeConfig)
    } else if (harvest_cooldown matches Some(c) && c < 0) || (rebalance_cooldown matches Some(c)
        && c < 0) {
        Err(VaultError::InvalidTimestamp)
    } else {
        Ok(
            Vault {
                management_fee_bps: updated(management_fee_bps, v.management_fee_bps),
                performance_fee_bps: updated(performance_fee_bps, v.performance_fee_bps),
                harvest_cooldown: updated(harvest_cooldown, v.harvest_cooldown),
                rebalance_cooldown: updated(rebalance_cooldown, v.rebalance_cooldown),
                rebalance_threshold_bps: updated(rebalance_threshold_bps, v.rebalance_threshold_bps),
                min_deposit: updated(min_deposit, v.min_deposit),
                ..v
            },
        )
    }
}

/// Updates the given parameters and keeps the others; `authorized` says
/// whether the caller is the vault's authority. Fees must stay within the
/// protocol caps and cooldowns non-negative; nothing is written unless every
/// given value is valid.
pub fn update_vault_params(
    vault: &mut Vault,
    authorized: bool,
    management_fee_bps: Option<u16>,
    performance_fee_bps: Option<u16>,
    harvest_cooldown: Option<i64>,
    rebalance_cooldown: Option<i64>,
    rebalance_threshold_bps: Option<u16>,
    min_deposit: Option<u64>,
) -> (r: Result<(), VaultError>)
    ensures
        match update_vault_params_spec(
            *old(vault),
            authorized,
            management_fee_bps,
            performance_fee_bps,
            harvest_cooldown,
            rebalance_cooldown,
            rebalance_threshold_bps,
            min_deposit,
        ) {
            Ok(v) => r is Ok && *final(vault) == v,
            Err(e) => r == Err::<(), VaultError>(e) && *final(vault) == *old(vault),
        },
        old(vault).wf() ==> final(vault).wf(),
{
    if !authorized {
        return Err(VaultError::Unauthorized);
    }
    if vault.paused {
        return Err(VaultError::VaultPaused);
    }
    if let Some(fee) = management_fee_bps {
        if fee > MAX_MANAGEMENT_FEE_BPS {
            return Err(VaultError::InvalidFeeConfig);
        }
    }
    if let Some(fee) = performance_fee_bps {
        if fee > MAX_PERFORMANCE_FEE_BPS {
            return Err(VaultError::InvalidFeeConfig);
        }
    }
    if let Some(cooldown) = harvest_cooldown {
        if cooldown < 0 {
            return Err(VaultError::InvalidTimestamp);
        }
    }
    if let Some(cooldown) = rebalance_cooldown {
        if cooldown < 0 {
            return Err(VaultError::InvalidTimestamp);
        }
    }
    if let Some(fee) = management_fee_bps {
        vault.management_fee_bps = fee;
    }
    if let Some(fee) = performance_fee_bps {
        vault.performance_fee_bps = fee;
    }
    if let Some(cooldown) = harvest_cooldown {
        vault.harvest_cooldown = cooldown;
    }
    if let Some(cooldown) = rebalance_cooldown {
        vault.rebalance_cooldown = cooldown;
    }
    if let Some(threshold) = rebalance_threshold_bps {
        vault.rebalance_threshold_bps = threshold;
    }
    if let Some(min) = min_deposit {
        vault.min_deposit = min;
    }
    Ok(())
}

} // verus!
