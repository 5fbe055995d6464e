//! Harvesting rewards with fee accrual, and collecting accrued fees.
use vstd::prelude::*;
use crate::errors::VaultError;
use crate::state::Vault;
use crate::utils::{
    apy_spec, calculate_management_fee, calculate_nav_per_share, calculate_performance_fee,
    can_harvest, cooldown_elapsed_spec, estimate_apy, management_fee_spec, nav_spec,
    performance_fee_spec, raised_mark,
};

verus! {

/// What a successful harvest computed.
#[derive(Debug, Clone, Copy, PartialEq, Eq, Structural)]
pub struct HarvestReport {
    /// Management fee accrued for the elapsed period.
    pub management_fee: u64,
    /// Performance fee accrued on the NAV gain above the high-water mark.
    pub performance_fee: u64,
    /// Rewards added to the vault's assets after fees (floored at zero).
    pub rewards_reinvested: u64,
    /// Annualised yield of this period in basis points (informational).
    pub apy_estimate_bps: u64,
}

/// Rewards left after fees, floored at zero.
pub open spec fn net_rewards(rewards: u64, fees: int) -> int {
    if rewards > fees {
        rewards - fees
    } else {
        0
    }
}

/// The vault after a harvest of `rewards` at `now`, and its report; or the
/// error that refuses it.
pub open spec fn harvest_spec(v: Vault, now: i64, rewards: u64) -> Result<
    (Vault, HarvestReport),
    VaultError,
> {
    if v.paused {
        Err(VaultError::VaultPaused)
    } else {
        match cooldown_elapsed_spec(now, v.last_harvest, v.harvest_cooldown) {
            Err(e) => Err(e),
            Ok(ready) => if !ready || rewards == 0 {
                Err(VaultError::HarvestNotReady)
            } else {
                let elapsed = (now - v.last_harvest) as i64;
                let nav = nav_spec(v.total_assets, v.total_shares);
                match (
                    management_fee_spec(v.total_assets, v.management_fee_bps, elapsed),
                    performance_fee_spec(nav, v.high_water_mark, v.performance_fee_bps),
                ) {
                    (Ok(mfee), Ok(pfee)) => {
                        let net = net_rewards(rewards, mfee + pfee);
                        if v.accrued_management_fees + mfee > u64::MAX
                            || v.accrued_performance_fees + pfee > u64::MAX || mfee + pfee
                            > u64::MAX || v.total_assets + net > u64::MAX {
                            Err(VaultError::MathOverflow)
                        } else {
                            let assets = (v.total_assets + net) as u64;
                            let period = if elapsed >= 1 {
                                elapsed
                            } else {
                                1
                            };
                            let apy = match apy_spec(net as u64, v.total_assets, period) {
                                Ok(a) => a,
                                Err(_) => 0,
                            };
                            Ok(
                                (
                                    Vault {
                                        total_assets: assets,
                                        last_harvest: now,
                                        accrued_management_fees: (v.accrued_management_fees
                                            + mfee) as u64,
                                        accrued_performance_fees: (v.accrued_performance_fees
                                            + pfee) as u64,
                                        high_water_mark: raised_mark(
                                            v.high_water_mark,
                                            nav_spec(assets, v.total_shares),
                                        ),
                                        ..v
                                    },
                                    HarvestReport {
                                        management_fee: mfee,
                                        performance_fee: pfee,
                                        rewards_reinvested: net as u64,
                                        apy_estimate_bps: apy,
                                    },
                                ),
                            )
                        }
                    },
                    _ => Err(VaultError::MathOverflow),
                }
            },
        }
    }
}

/// Harvests `rewards_amount` at `now`: accrues the management fee for the
/// time since the last harvest and the performance fee on the NAV gain above
/// the high-water mark (NAV taken before the harvest), reinvests what is left
/// of the rewards, and raises the high-water mark if the NAV improved.
/// Fees accrue in full even when the rewards do not cover them.
pub fn harvest(vault: &mut Vault, now: i64, rewards_amount: u64) -> (r: Result<
    HarvestReport,
    VaultError,
>)
    ensures
        match harvest_spec(*old(vault), now, rewards_amount) {
            Ok((v, report)) => r == Ok::<HarvestReport, VaultError>(report) && *final(vault) == v,
            Err(e) => r == Err::<HarvestReport, VaultError>(e) && *final(vault) == *old(vault),
        },
        final(vault).high_water_mark >= old(vault).high_water_mark,
        old(vault).wf() ==> final(vault).wf(),
{
    if vault.paused {
        return Err(VaultError::VaultPaused);
    }
    match can_harvest(vault, now) {
        Err(e) => {
            return Err(e);
        },
        Ok(ready) => {
            if !ready {
                return Err(VaultError::HarvestNotReady);
            }
        },
    }
    if rewards_amount == 0 {
        return Err(VaultError::HarvestNotReady);
    }
    let elapsed: i64 = now - vault.last_harvest;
    let management_fee: u64 = match calculate_management_fee(
        vault.total_assets,
        vault.management_fee_bps,
        elapsed,
    ) {
        Ok(f) => f,
        Err(e) => {
            return Err(e);
        },
    };
    let nav: u64 = match calculate_nav_per_share(vault.total_assets, vault.total_shares) {
        Ok(n) => n,
        Err(e) => {
            return Err(e);
        },
    };
    let performance_fee: u64 = match calculate_performance_fee(
        nav,
        vault.high_water_mark,
        vault.performance_fee_bps,
    ) {
        Ok(f) => f,
        Err(e) => {
            return Err(e);
        },
    };
    let accrued_management: u64 = match vault.accrued_management_fees.checked_add(management_fee) {
        Some(a) => a,
        None => {
            return Err(VaultError::MathOverflow);
        },
    };
    let accrued_performance: u64 = match vault.accrued_performance_fees.checked_add(
        performance_fee,
    ) {
        Some(a) => a,
        None => {
            return Err(VaultError::MathOverflow);
        },
    };
    let total_fees: u64 = match management_fee.checked_add(performance_fee) {
        Some(t) => t,
        None => {
            return Err(VaultError::MathOverflow);
        },
    };
    let rewards_after_fees: u64 = if rewards_amount > total_fees {
        rewards_amount - total_fees
    } else {
        0
    };
    let assets_before: u64 = vault.total_assets;
    let assets_after: u64 = match assets_before.checked_add(rewards_after_fees) {
        Some(a) => a,
        None => {
            return Err(VaultError::MathOverflow);
        },
    };
    let new_nav: u64 = match calculate_nav_per_share(assets_after, vault.total_shares) {
        Ok(n) => n,
        Err(e) => {
            return Err(e);
        },
    };
    let period: i64 = if elapsed >= 1 {
        elapsed
    } else {
        1
    };
    let apy_estimate: u64 = match estimate_apy(rewards_after_fees, assets_before, period) {
        Ok(a) => a,
        Err(_) => 0,
    };
    vault.total_assets = assets_after;
    vault.last_harvest = now;
    vault.accrued_management_fees = accrued_management;
    vault.accrued_performance_fees = accrued_performance;
    if new_nav > vault.high_water_mark {
        vault.high_water_mark = new_nav;
    }
    Ok(
        HarvestReport {
            management_fee,
            performance_fee,
            rewards_reinvested: rewards_after_fees,
            apy_estimate_bps: apy_estimate,
        },
    )
}

/// The vault after its accrued fees are paid out, and the amount paid; or the
/// error that refuses it.
pub open spec fn collect_fees_spec(v: Vault, authorized: bool) -> Result<(Vault, u64), VaultError> {
    if !authorized {
        Err(VaultError::Unauthorized)
    } else if v.paused {
        Err(VaultError::VaultPaused)
    } else if v.accrued_management_fees + v.accrued_performance_fees > u64::MAX {
        Err(VaultError::MathOverflow)
    } else {
        Ok(
            (
                Vault { accrued_management_fees: 0, accrued_performance_fees: 0, ..v },
                (v.accrued_management_fees + v.accrued_performance_fees) as u64,
            ),
        )
    }
}

/// Pays out all accrued fees: returns their total, which the caller transfers
/// to the treasury, and resets both balances to zero. `authorized` says
/// whether the caller is the vault's authority. With nothing accrued this
/// returns zero and changes nothing.
pub fn collect_fees(vault: &mut Vault, authorized: bool) -> (r: Result<u64, VaultError>)
    ensures
        match collect_fees_spec(*old(vault), authorized) {
            Ok((v, total)) => r == Ok::<u64, VaultError>(total) && *final(vault) == v,
            Err(e) => r == Err::<u64, VaultError>(e) && *final(vault) == *old(vault),
        },
        old(vault).wf() ==> final(vault).wf(),
{
    if !authorized {
        return Err(VaultError::Unauthorized);
    }
    if vault.paused {
        return Err(VaultError::VaultPaused);
    }
    let total_fees: u64 = match vault.accrued_management_fees.checked_add(
        vault.accrued_performance_fees,
    ) {
        Some(t) => t,
        None => {
            return Err(VaultError::MathOverflow);
        },
    };
    if total_fees == 0 {
        return Ok(0);
    }
    vault.accrued_management_fees = 0;
    vault.accrued_performance_fees = 0;
    Ok(total_fees)
}

} // verus!
