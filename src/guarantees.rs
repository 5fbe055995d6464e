//! Properties that hold across calls: share round trips, the high-water mark
//! over any run of deposits and harvests, the liquidation gate, and the
//! harvest cooldown.
use vstd::prelude::*;
use vstd::arithmetic::div_mod::{lemma_div_is_ordered, lemma_div_multiples_vanish};
use crate::errors::VaultError;
use crate::instructions::deposit::deposit_spec;
use crate::instructions::harvest::{HarvestReport, harvest_spec};
use crate::instructions::liquidate::{debt_to_repay_spec, liquidate_spec};
use crate::state::{UserPosition, Vault};
use crate::utils::{
    assets_from_shares_spec, health_factor_spec, position_leverage_spec, shares_to_mint_spec,
};

verus! {

proof fn lemma_floor_product_bound(d: int, ts: int, ta: int)
    requires
        d >= 0,
        ts > 0,
        ta > 0,
    ensures
        (d * ts / ta) * ta <= d * ts,
        (d * ts / ta) * ta / ts <= d,
{
    let s = d * ts / ta;
    assert(s * ta <= d * ts) by (nonlinear_arith)
        requires
            s == d * ts / ta,
            ta > 0,
            d * ts >= 0,
    ;
    lemma_div_is_ordered(s * ta, d * ts, ts);
    assert(d * ts == ts * d) by (nonlinear_arith);
    lemma_div_multiples_vanish(d, ts);
}

/// Redeeming the shares minted for a deposit never yields more than was
/// deposited: neither at the totals the shares were priced at, nor at the
/// totals after the deposit. Floor rounding only ever favours the vault.
pub proof fn lemma_redeem_after_mint_at_most_deposit(
    deposit: u64,
    total_assets: u64,
    total_shares: u64,
)
    requires
        total_shares > 0,
    ensures
        shares_to_mint_spec(deposit, total_assets, total_shares) matches Ok(shares) ==> {
            &&& assets_from_shares_spec(shares, total_assets, total_shares) matches Ok(assets)
                && assets <= deposit
            &&& total_assets + deposit <= u64::MAX && total_shares + shares <= u64::MAX
                ==> (assets_from_shares_spec(
                shares,
                (total_assets + deposit) as u64,
                (total_shares + shares) as u64,
            ) matches Ok(assets) && assets <= deposit)
        },
{
    if let Ok(shares) = shares_to_mint_spec(deposit, total_assets, total_shares) {
        let d = deposit as int;
        let ta = total_assets as int;
        let ts = total_shares as int;
        let s = shares as int;
        assert(ta > 0);
        assert(s == d * ts / ta);
        lemma_floor_product_bound(d, ts, ta);
        assert(s * ta / ts <= d);
        assert(s * ta == (d * ts / ta) * ta);
        if ta + d <= u64::MAX && ts + s <= u64::MAX {
            assert(s * (ta + d) <= d * (ts + s)) by (nonlinear_arith)
                requires
                    s * ta <= d * ts,
                    s >= 0,
                    d >= 0,
            ;
            lemma_div_is_ordered(s * (ta + d), d * (ts + s), ts + s);
            assert(d * (ts + s) == (ts + s) * d) by (nonlinear_arith);
            lemma_div_multiples_vanish(d, ts + s);
        }
    }
}

/// One step of a run of vault operations that touch the high-water mark.
pub enum VaultStep {
    Deposit { amount: u64 },
    Harvest { now: i64, rewards: u64 },
}

/// The vault after one step; a refused step leaves it unchanged.
pub open spec fn apply_step(v: Vault, step: VaultStep) -> Vault {
    match step {
        VaultStep::Deposit { amount } => match deposit_spec(v, amount) {
            Ok((next, _)) => next,
            Err(_) => v,
        },
        VaultStep::Harvest { now, rewards } => match harvest_spec(v, now, rewards) {
            Ok((next, _)) => next,
            Err(_) => v,
        },
    }
}

/// The vault after a run of steps, applied in order.
pub open spec fn apply_steps(v: Vault, steps: Seq<VaultStep>) -> Vault
    decreases steps.len(),
{
    if steps.len() == 0 {
        v
    } else {
        apply_steps(apply_step(v, steps[0]), steps.subrange(1, steps.len() as int))
    }
}

/// Over any run of deposits and harvests, successful or not, the high-water
/// mark never decreases.
pub proof fn lemma_high_water_mark_never_decreases(v: Vault, steps: Seq<VaultStep>)
    ensures
        apply_steps(v, steps).high_water_mark >= v.high_water_mark,
    decreases steps.len(),
{
    if steps.len() > 0 {
        let next = apply_step(v, steps[0]);
        assert(next.high_water_mark >= v.high_water_mark);
        lemma_high_water_mark_never_decreases(next, steps.subrange(1, steps.len() as int));
    }
}

/// A liquidation of a position whose health factor is at or above the
/// threshold is refused with `LiquidationNotNeeded`; below it, a seizure
/// that the position and vault can cover, and after which the remaining
/// position's leverage fits in a `u64`, succeeds and takes the collateral
/// and the repaid debt off the position and the collateral off the vault.
/// Assumes the gates that come before the health check pass (vault active,
/// price feed fresh or absent) and that the health factor is representable.
pub proof fn lemma_liquidation_gate(
    v: Vault,
    p: UserPosition,
    oracle_is_fresh: bool,
    collateral_to_seize: u64,
)
    requires
        !v.paused,
        v.strategy_config.oracle_price_feed is None || oracle_is_fresh,
        health_factor_spec(p.collateral, p.debt, v.strategy_config.collateral_factor_spec()) is Ok,
    ensures
        ({
            let health = health_factor_spec(
                p.collateral,
                p.debt,
                v.strategy_config.collateral_factor_spec(),
            )->Ok_0;
            let threshold = v.strategy_config.liquidation_threshold_spec();
            let repay = debt_to_repay_spec(collateral_to_seize)->Ok_0;
            &&& health >= threshold ==> liquidate_spec(v, p, oracle_is_fresh, collateral_to_seize)
                == Err::<(Vault, UserPosition, u64), VaultError>(
                VaultError::LiquidationNotNeeded,
            )
            &&& health < threshold && collateral_to_seize <= p.collateral
                && collateral_to_seize <= v.total_assets && debt_to_repay_spec(
                collateral_to_seize,
            ) is Ok && repay <= p.debt && position_leverage_spec(
                (p.collateral - collateral_to_seize) as u64,
                (p.debt - repay) as u64,
            ) is Ok ==> (liquidate_spec(v, p, oracle_is_fresh, collateral_to_seize) matches Ok(
                (nv, np, repaid),
            ) && repaid == repay && nv.total_assets == v.total_assets - collateral_to_seize
                && np.collateral == p.collateral - collateral_to_seize && np.debt == p.debt
                - repay)
        }),
{
}

/// With a positive harvest cooldown, a second harvest at the same moment as a
/// successful one is refused with `HarvestNotReady`, whatever its rewards.
pub proof fn lemma_harvest_twice_at_same_time_refused(
    v: Vault,
    now: i64,
    first_rewards: u64,
    second_rewards: u64,
)
    requires
        v.harvest_cooldown > 0,
    ensures
        harvest_spec(v, now, first_rewards) matches Ok((after, _)) ==> harvest_spec(
            after,
            now,
            second_rewards,
        ) == Err::<(Vault, HarvestReport), VaultError>(
            VaultError::HarvestNotReady,
        ),
{
}

} // verus!
