//! Share, fee, risk and rebalance arithmetic.
use vstd::prelude::*;
use vstd::arithmetic::div_mod::{lemma_div_is_ordered, lemma_div_multiples_vanish};
use crate::errors::VaultError;
use crate::math::{mul_div, mul_div_spec};
use crate::state::Vault;

verus! {

/// Seconds in a (non-leap) year.
pub const SECONDS_PER_YEAR: u64 = 31_536_000;

/// Basis points in one whole (100%, or 1.0x).
pub const BPS_DENOMINATOR: u64 = 10_000;

/// Shares minted for a deposit: one share per unit on an empty vault,
/// otherwise `deposit * total_shares / total_assets`.
pub open spec fn shares_to_mint_spec(deposit: u64, total_assets: u64, total_shares: u64) -> Result<
    u64,
    VaultError,
> {
    if total_shares == 0 {
        Ok(deposit)
    } else {
        mul_div_spec(deposit as int, total_shares as int, total_assets as int)
    }
}

/// Assets redeemed for `shares`: `shares * total_assets / total_shares`,
/// refused when no shares exist.
pub open spec fn assets_from_shares_spec(shares: u64, total_assets: u64, total_shares: u64) -> Result<
    u64,
    VaultError,
> {
    mul_div_spec(shares as int, total_assets as int, total_shares as int)
}

/// Management fee pro-rated over `elapsed` seconds: zero for a non-positive
/// interval, else `assets * fee_bps * elapsed / (10000 * seconds_per_year)`.
pub open spec fn management_fee_spec(total_assets: u64, fee_bps: u16, elapsed: i64) -> Result<
    u64,
    VaultError,
> {
    if elapsed <= 0 {
        Ok(0)
    } else {
        mul_div_spec(
            total_assets * fee_bps,
            elapsed as int,
            BPS_DENOMINATOR * SECONDS_PER_YEAR,
        )
    }
}

/// Performance fee: a share of the NAV gain above the high-water mark.
pub open spec fn performance_fee_spec(current_nav: u64, high_water_mark: u64, fee_bps: u16) -> Result<
    u64,
    VaultError,
> {
    if current_nav <= high_water_mark {
        Ok(0)
    } else {
        mul_div_spec(current_nav - high_water_mark, fee_bps as int, BPS_DENOMINATOR as int)
    }
}

/// Health factor in basis points; `u64::MAX` stands for a position without debt.
pub open spec fn health_factor_spec(collateral: u64, debt: u64, collateral_factor_bps: u16) -> Result<
    u64,
    VaultError,
> {
    if debt == 0 {
        Ok(u64::MAX)
    } else {
        mul_div_spec(collateral as int, collateral_factor_bps as int, debt as int)
    }
}

pub open spec fn abs_diff(a: int, b: int) -> int {
    if a >= b {
        a - b
    } else {
        b - a
    }
}

/// Some slot of the allocation deviates from its target by more than the
/// threshold.
pub open spec fn deviation_exceeds(current: Seq<u16>, target: Seq<u16>, threshold_bps: u16) -> bool {
    exists|i: int|
        0 <= i < 4 && #[trigger] abs_diff(current[i] as int, target[i] as int) > threshold_bps
}

/// Annualised yield of one harvest period, in basis points: zero without
/// assets or without a positive period, else
/// `rewards * 10000 * (seconds_per_year / period) / total_assets`.
pub open spec fn apy_spec(rewards: u64, total_assets: u64, period: i64) -> Result<u64, VaultError> {
    if total_assets == 0 || period <= 0 {
        Ok(0)
    } else {
        mul_div_spec(
            rewards * BPS_DENOMINATOR,
            SECONDS_PER_YEAR as int / period as int,
            total_assets as int,
        )
    }
}

/// The higher of a high-water mark and a new NAV.
pub open spec fn raised_mark(mark: u64, nav: u64) -> u64 {
    if nav > mark {
        nav
    } else {
        mark
    }
}

/// Leverage of a position in basis points: `(collateral + debt) * 10000 /
/// collateral`, or exactly 1.0x when no collateral is left.
pub open spec fn position_leverage_spec(collateral: u64, debt: u64) -> Result<u64, VaultError> {
    if collateral == 0 {
        Ok(BPS_DENOMINATOR)
    } else if collateral + debt > u64::MAX {
        Err(VaultError::MathOverflow)
    } else {
        mul_div_spec(collateral + debt, BPS_DENOMINATOR as int, collateral as int)
    }
}

/// Net asset value per share, floor-rounded; zero when no shares exist.
pub open spec fn nav_spec(total_assets: u64, total_shares: u64) -> u64 {
    if total_shares == 0 {
        0
    } else {
        (total_assets / total_shares) as u64
    }
}

/// Whether `cooldown` seconds have passed from `last` to `now`; refused
/// when the interval itself does not fit in an `i64`.
pub open spec fn cooldown_elapsed_spec(now: i64, last: i64, cooldown: i64) -> Result<bool, VaultError> {
    if i64::MIN <= now - last <= i64::MAX {
        Ok(now - last >= cooldown)
    } else {
        Err(VaultError::InvalidTimestamp)
    }
}

/// Shares to mint for a deposit of `deposit_amount`.
pub fn calculate_shares_to_mint(deposit_amount: u64, total_assets: u64, total_shares: u64) -> (r:
    Result<u64, VaultError>)
    ensures
        r == shares_to_mint_spec(deposit_amount, total_assets, total_shares),
        total_shares == 0 ==> r == Ok::<u64, VaultError>(deposit_amount),
{
    if total_shares == 0 {
        return Ok(deposit_amount);
    }
    mul_div(deposit_amount, total_shares, total_assets)
}

/// Assets owed for redeeming `shares`.
pub fn calculate_assets_from_shares(shares: u64, total_assets: u64, total_shares: u64) -> (r:
    Result<u64, VaultError>)
    ensures
        r == assets_from_shares_spec(shares, total_assets, total_shares),
        total_shares == 0 ==> r == Err::<u64, VaultError>(VaultError::MathOverflow),
{
    mul_div(shares, total_assets, total_shares)
}

/// Management fee accrued over `time_elapsed_seconds`, from the full
/// product `assets * fee_bps * elapsed` divided once. The product is taken in
/// 128 bits; one that does not fit there gives a fee beyond `u64` as well.
pub fn calculate_management_fee(
    total_assets: u64,
    management_fee_bps: u16,
    time_elapsed_seconds: i64,
) -> (r: Result<u64, VaultError>)
    ensures
        r == management_fee_spec(total_assets, management_fee_bps, time_elapsed_seconds),
        time_elapsed_seconds <= 0 ==> r == Ok::<u64, VaultError>(0),
{
    if time_elapsed_seconds <= 0 {
        return Ok(0);
    }
    let divisor: u128 = 315_360_000_000;
    assert(divisor == BPS_DENOMINATOR * SECONDS_PER_YEAR);
    proof {
        assert(0 <= (total_assets as int) * (management_fee_bps as int) <= u128::MAX)
            by (nonlinear_arith)
            requires
                total_assets <= u64::MAX,
                management_fee_bps <= u16::MAX,
        ;
    }
    let rate: u128 = (total_assets as u128) * (management_fee_bps as u128);
    match rate.checked_mul(time_elapsed_seconds as u128) {
        None => {
            proof {
                let bound: int = (u64::MAX + 1) * divisor;
                lemma_div_is_ordered(bound, rate * time_elapsed_seconds, divisor as int);
                lemma_div_multiples_vanish(u64::MAX + 1, divisor as int);
                assert(bound == divisor * (u64::MAX + 1));
            }
            Err(VaultError::MathOverflow)
        },
        Some(product) => {
            let fee: u128 = product / divisor;
            if fee > u64::MAX as u128 {
                Err(VaultError::MathOverflow)
            } else {
                Ok(fee as u64)
            }
        },
    }
}

/// Performance fee on the NAV gain above the high-water mark.
pub fn calculate_performance_fee(current_nav: u64, high_water_mark: u64, performance_fee_bps: u16) -> (r:
    Result<u64, VaultError>)
    ensures
        r == performance_fee_spec(current_nav, high_water_mark, performance_fee_bps),
        current_nav <= high_water_mark ==> r == Ok::<u64, VaultError>(0),
{
    if current_nav <= high_water_mark {
        return Ok(0);
    }
    let gains: u64 = current_nav - high_water_mark;
    mul_div(gains, performance_fee_bps as u64, BPS_DENOMINATOR)
}

/// Health factor of a position in basis points (10000 = collateral exactly
/// backs the debt).
pub fn calculate_health_factor(collateral: u64, debt: u64, collateral_factor_bps: u16) -> (r: Result<
    u64,
    VaultError,
>)
    ensures
        r == health_factor_spec(collateral, debt, collateral_factor_bps),
{
    if debt == 0 {
        return Ok(u64::MAX);
    }
    mul_div(collateral, collateral_factor_bps as u64, debt)
}

/// Whether any slot of the allocation is further than `threshold_bps` from
/// its target.
pub fn should_rebalance(
    current_allocations: &[u16; 4],
    target_allocations: &[u16; 4],
    threshold_bps: u16,
) -> (r: bool)
    ensures
        r == deviation_exceeds(current_allocations@, target_allocations@, threshold_bps),
{
    let mut i: usize = 0;
    while i < 4
        invariant
            0 <= i <= 4,
            current_allocations@.len() == 4,
            target_allocations@.len() == 4,
            forall|j: int|
                0 <= j < i ==> !(#[trigger] abs_diff(
                    current_allocations@[j] as int,
                    target_allocations@[j] as int,
                ) > threshold_bps),
        decreases 4 - i,
    {
        let current: u16 = current_allocations[i];
        let target: u16 = target_allocations[i];
        let deviation: u16 = if current >= target {
            current - target
        } else {
            target - current
        };
        if deviation > threshold_bps {
            assert(abs_diff(current_allocations@[i as int] as int, target_allocations@[i as int] as int)
                > threshold_bps);
            return true;
        }
        i = i + 1;
    }
    false
}

/// Annualised yield estimate of a harvest, in basis points.
pub fn estimate_apy(rewards_harvested: u64, total_assets: u64, period_seconds: i64) -> (r: Result<
    u64,
    VaultError,
>)
    ensures
        r == apy_spec(rewards_harvested, total_assets, period_seconds),
{
    if total_assets == 0 || period_seconds <= 0 {
        return Ok(0);
    }
    let periods_per_year: u64 = ((SECONDS_PER_YEAR as i64) / period_seconds) as u64;
    proof {
        assert(0 <= (rewards_harvested as int) * 10000 * (periods_per_year as int)
            <= 18446744073709551615 * 10000 * 31536000) by (nonlinear_arith)
            requires
                rewards_harvested <= u64::MAX,
                periods_per_year <= 31536000,
        ;
    }
    let numerator: u128 = (rewards_harvested as u128) * (BPS_DENOMINATOR as u128) * (
    periods_per_year as u128);
    let apy: u128 = numerator / (total_assets as u128);
    if apy > u64::MAX as u128 {
        Err(VaultError::MathOverflow)
    } else {
        Ok(apy as u64)
    }
}

/// Position size reached by levering `collateral` to `leverage_bps`.
pub fn calculate_leveraged_position(collateral: u64, leverage_bps: u16) -> (r: Result<u64, VaultError>)
    ensures
        r == mul_div_spec(collateral as int, leverage_bps as int, BPS_DENOMINATOR as int),
{
    mul_div(collateral, leverage_bps as u64, BPS_DENOMINATOR)
}

/// Debt carried by a position of `position_size` on `collateral`.
pub fn calculate_debt(position_size: u64, collateral: u64) -> (r: Result<u64, VaultError>)
    ensures
        position_size < collateral ==> r == Err::<u64, VaultError>(VaultError::MathOverflow),
        position_size >= collateral ==> r == Ok::<u64, VaultError>(
            (position_size - collateral) as u64,
        ),
{
    if position_size < collateral {
        return Err(VaultError::MathOverflow);
    }
    Ok(position_size - collateral)
}

/// Leverage of a position with `collateral` and `debt`, in basis points.
pub fn calculate_position_leverage(collateral: u64, debt: u64) -> (r: Result<u64, VaultError>)
    ensures
        r == position_leverage_spec(collateral, debt),
{
    if collateral == 0 {
        return Ok(BPS_DENOMINATOR);
    }
    let position: u64 = match collateral.checked_add(debt) {
        Some(p) => p,
        None => {
            return Err(VaultError::MathOverflow);
        },
    };
    mul_div(position, BPS_DENOMINATOR, collateral)
}

/// Net asset value per share.
pub fn calculate_nav_per_share(total_assets: u64, total_shares: u64) -> (r: Result<u64, VaultError>)
    ensures
        r == Ok::<u64, VaultError>(nav_spec(total_assets, total_shares)),
{
    if total_shares == 0 {
        return Ok(0);
    }
    Ok(total_assets / total_shares)
}

/// Whether the harvest cooldown of `vault` has passed at `current_timestamp`.
pub fn can_harvest(vault: &Vault, current_timestamp: i64) -> (r: Result<bool, VaultError>)
    ensures
        r == cooldown_elapsed_spec(current_timestamp, vault.last_harvest, vault.harvest_cooldown),
{
    match current_timestamp.checked_sub(vault.last_harvest) {
        Some(elapsed) => Ok(elapsed >= vault.harvest_cooldown),
        None => Err(VaultError::InvalidTimestamp),
    }
}

/// Whether the rebalance cooldown of `vault` has passed at `current_timestamp`.
pub fn can_rebalance(vault: &Vault, current_timestamp: i64) -> (r: Result<bool, VaultError>)
    ensures
        r == cooldown_elapsed_spec(
            current_timestamp,
            vault.last_rebalance,
            vault.rebalance_cooldown,
        ),
{
    match current_timestamp.checked_sub(vault.last_rebalance) {
        Some(elapsed) => Ok(elapsed >= vault.rebalance_cooldown),
        None => Err(VaultError::InvalidTimestamp),
    }
}

} // verus!
