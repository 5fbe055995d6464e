//! Liquidating unhealthy positions and adjusting leverage.
use vstd::prelude::*;
use crate::errors::VaultError;
use crate::math::{mul_div, mul_div_spec};
use crate::state::{LIQUIDATION_BONUS_BPS, MIN_LEVERAGE_BPS, UserPosition, Vault};
use crate::utils::{
    BPS_DENOMINATOR, calculate_debt, calculate_health_factor, calculate_leveraged_position,
    calculate_position_leverage, health_factor_spec, position_leverage_spec,
};

verus! {

/// The smaller of a computed leverage and the vault's maximum.
pub open spec fn capped_leverage(leverage: u64, max_leverage_bps: u16) -> u16 {
    if leverage < max_leverage_bps {
        leverage as u16
    } else {
        max_leverage_bps
    }
}

/// Debt repaid for seizing `collateral` (collateral plus the liquidation bonus).
pub open spec fn debt_to_repay_spec(collateral_to_seize: u64) -> Result<u64, VaultError> {
    mul_div_spec(
        collateral_to_seize as int,
        LIQUIDATION_BONUS_BPS as int,
        BPS_DENOMINATOR as int,
    )
}

/// The vault and position after `collateral_to_seize` is seized, and the
/// debt repaid for it; or the error that refuses it.
pub open spec fn liquidate_spec(
    v: Vault,
    p: UserPosition,
    oracle_is_fresh: bool,
    collateral_to_seize: u64,
) -> Result<(Vault, UserPosition, u64), VaultError> {
    if v.paused {
        Err(VaultError::VaultPaused)
    } else if v.strategy_config.oracle_price_feed is Some && !oracle_is_fresh {
        Err(VaultError::StaleOraclePrice)
    } else {
        match health_factor_spec(
            p.collateral,
            p.debt,
            v.strategy_config.collateral_factor_spec(),
        ) {
            Err(e) => Err(e),
            Ok(health) => if health >= v.strategy_config.liquidation_threshold_spec() {
                Err(VaultError::LiquidationNotNeeded)
            } else if collateral_to_seize > p.collateral {
                Err(VaultError::InsufficientFunds)
            } else {
                match debt_to_repay_spec(collateral_to_seize) {
                    Err(e) => Err(e),
                    Ok(repay) => if repay > p.debt || collateral_to_seize > v.total_assets {
                        Err(VaultError::MathOverflow)
                    } else {
                        let collateral = (p.collateral - collateral_to_seize) as u64;
                        let debt = (p.debt - repay) as u64;
                        match position_leverage_spec(collateral, debt) {
                            Err(e) => Err(e),
                            Ok(leverage) => Ok(
                                (
                                    Vault {
                                        total_assets: (v.total_assets - collateral_to_seize) as u64,
                                        current_leverage_bps: capped_leverage(
                                            leverage,
                                            v.max_leverage_bps,
                                        ),
                                        ..v
                                    },
                                    UserPosition { collateral, debt, ..p },
                                    repay,
                                ),
                            ),
                        }
                    },
                }
            },
        }
    }
}

/// Liquidates part of a position whose health factor is below the vault's
/// liquidation threshold: the caller receives `collateral_to_seize` and
/// repays the returned debt (collateral plus a 5% bonus). The vault's assets
/// shrink by the seized collateral, the position's collateral and debt shrink
/// accordingly, and the vault's leverage becomes that of the remaining
/// position, capped at its maximum. `oracle_is_fresh` is the freshness of the
/// vault's price feed, consulted only when one is configured.
pub fn liquidate(
    vault: &mut Vault,
    position: &mut UserPosition,
    oracle_is_fresh: bool,
    collateral_to_seize: u64,
) -> (r: Result<u64, VaultError>)
    ensures
        match liquidate_spec(*old(vault), *old(position), oracle_is_fresh, collateral_to_seize) {
            Ok((v, p, repay)) => r == Ok::<u64, VaultError>(repay) && *final(vault) == v
                && *final(position) == p,
            Err(e) => r == Err::<u64, VaultError>(e) && *final(vault) == *old(vault)
                && *final(position) == *old(position),
        },
        r is Ok ==> final(vault).current_leverage_bps <= final(vault).max_leverage_bps,
        old(vault).wf() ==> final(vault).wf(),
{
    if vault.paused {
        return Err(VaultError::VaultPaused);
    }
    if vault.strategy_config.oracle_price_feed.is_some() && !oracle_is_fresh {
        return Err(VaultError::StaleOraclePrice);
    }
    let collateral_factor: u16 = vault.strategy_config.collateral_factor();
    let health_factor: u64 = match calculate_health_factor(
        position.collateral,
        position.debt,
        collateral_factor,
    ) {
        Ok(h) => h,
        Err(e) => {
            return Err(e);
        },
    };
    let liquidation_threshold: u16 = vault.strategy_config.liquidation_threshold();
    if health_factor >= liquidation_threshold as u64 {
        return Err(VaultError::LiquidationNotNeeded);
    }
    if collateral_to_seize > position.collateral {
        return Err(VaultError::InsufficientFunds);
    }
    let debt_to_repay: u64 = match mul_div(
        collateral_to_seize,
        LIQUIDATION_BONUS_BPS as u64,
        BPS_DENOMINATOR,
    ) {
        Ok(d) => d,
        Err(e) => {
            return Err(e);
        },
    };
    if debt_to_repay > position.debt || collateral_to_seize > vault.total_assets {
        return Err(VaultError::MathOverflow);
    }
    let new_collateral: u64 = position.collateral - collateral_to_seize;
    let new_debt: u64 = position.debt - debt_to_repay;
    let new_leverage: u64 = match calculate_position_leverage(new_collateral, new_debt) {
        Ok(l) => l,
        Err(e) => {
            return Err(e);
        },
    };
    vault.total_assets = vault.total_assets - collateral_to_seize;
    vault.current_leverage_bps = if new_leverage < vault.max_leverage_bps as u64 {
        new_leverage as u16
    } else {
        vault.max_leverage_bps
    };
    position.collateral = new_collateral;
    position.debt = new_debt;
    Ok(debt_to_repay)
}

/// The vault and position after levering to `target_leverage_bps` with
/// `collateral_add` more collateral, and the increase of the position's debt
/// (zero when it fell); or the error that refuses it.
pub open spec fn adjust_leverage_spec(
    v: Vault,
    p: UserPosition,
    authorized: bool,
    now: i64,
    target_leverage_bps: u16,
    collateral_add: u64,
) -> Result<(Vault, UserPosition, u64), VaultError> {
    if !authorized {
        Err(VaultError::Unauthorized)
    } else if v.paused {
        Err(VaultError::VaultPaused)
    } else if target_leverage_bps < MIN_LEVERAGE_BPS || target_leverage_bps > v.max_leverage_bps {
        Err(VaultError::InvalidLeverage)
    } else if p.collateral + collateral_add > u64::MAX || v.total_assets + collateral_add
        > u64::MAX {
        Err(VaultError::MathOverflow)
    } else {
        let collateral = (p.collateral + collateral_add) as u64;
        match mul_div_spec(collateral as int, target_leverage_bps as int, BPS_DENOMINATOR as int) {
            Err(e) => Err(e),
            Ok(size) => if size < collateral {
                Err(VaultError::MathOverflow)
            } else {
                let debt = (size - collateral) as u64;
                Ok(
                    (
                        Vault {
                            total_assets: (v.total_assets + collateral_add) as u64,
                            current_leverage_bps: target_leverage_bps,
                            ..v
                        },
                        UserPosition {
                            collateral,
                            debt,
                            leverage_bps: target_leverage_bps,
                            last_interaction: now,
                            ..p
                        },
                        if debt > p.debt {
                            (debt - p.debt) as u64
                        } else {
                            0
                        },
                    ),
                )
            },
        }
    }
}

/// Sets a position to `target_leverage_bps` (between 1.0x and the vault's
/// maximum), after adding `collateral_add` to its collateral and to the
/// vault's assets: the debt becomes `collateral * target / 10000 -
/// collateral`. Returns how much the debt grew. `authorized` says whether the
/// caller owns the position.
pub fn adjust_leverage(
    vault: &mut Vault,
    position: &mut UserPosition,
    authorized: bool,
    now: i64,
    target_leverage_bps: u16,
    collateral_add: u64,
) -> (r: Result<u64, VaultError>)
    ensures
        match adjust_leverage_spec(
            *old(vault),
            *old(position),
            authorized,
            now,
            target_leverage_bps,
            collateral_add,
        ) {
            Ok((v, p, added)) => r == Ok::<u64, VaultError>(added) && *final(vault) == v
                && *final(position) == p,
            Err(e) => r == Err::<u64, VaultError>(e) && *final(vault) == *old(vault)
                && *final(position) == *old(position),
        },
        r is Ok ==> final(vault).current_leverage_bps <= final(vault).max_leverage_bps,
        old(vault).wf() ==> final(vault).wf(),
{
    if !authorized {
        return Err(VaultError::Unauthorized);
    }
    if vault.paused {
        return Err(VaultError::VaultPaused);
    }
    if target_leverage_bps < MIN_LEVERAGE_BPS || target_leverage_bps > vault.max_leverage_bps {
        return Err(VaultError::InvalidLeverage);
    }
    let collateral: u64 = match position.collateral.checked_add(collateral_add) {
        Some(c) => c,
        None => {
            return Err(VaultError::MathOverflow);
        },
    };
    let total_assets: u64 = match vault.total_assets.checked_add(collateral_add) {
        Some(a) => a,
        None => {
            return Err(VaultError::MathOverflow);
        },
    };
    let position_size: u64 = match calculate_leveraged_position(collateral, target_leverage_bps) {
        Ok(s) => s,
        Err(e) => {
            return Err(e);
        },
    };
    let new_debt: u64 = match calculate_debt(position_size, collateral) {
        Ok(d) => d,
        Err(e) => {
            return Err(e);
        },
    };
    let debt_added: u64 = if new_debt > position.debt {
        new_debt - position.debt
    } else {
        0
    };
    vault.total_assets = total_assets;
    vault.current_leverage_bps = target_leverage_bps;
    position.collateral = collateral;
    position.debt = new_debt;
    position.leverage_bps = target_leverage_bps;
    position.last_interaction = now;
    Ok(debt_added)
}

} // verus!
