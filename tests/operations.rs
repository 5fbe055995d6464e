use solana_yield_farming_vaults::errors::VaultError;
use solana_yield_farming_vaults::instructions::deposit::deposit;
use solana_yield_farming_vaults::instructions::harvest::{collect_fees, harvest};
use solana_yield_farming_vaults::instructions::initialize::{
    initialize_global_state, initialize_vault, VaultAccounts,
};
use solana_yield_farming_vaults::instructions::liquidate::{adjust_leverage, liquidate};
use solana_yield_farming_vaults::instructions::pause::{pause_vault, unpause_vault};
use solana_yield_farming_vaults::instructions::rebalance::{
    rebalance, update_strategy_config, update_vault_params,
};
use solana_yield_farming_vaults::instructions::withdraw::withdraw;
use solana_yield_farming_vaults::state::{GlobalState, StrategyConfig, StrategyKind, UserPosition, Vault};

const START: i64 = 1_700_000_000;

fn accounts() -> VaultAccounts {
    VaultAccounts {
        underlying_mint: [1; 32],
        share_mint: [2; 32],
        vault_token_account: [3; 32],
        authority: [4; 32],
    }
}

fn global() -> GlobalState {
    initialize_global_state([9; 32], [8; 32], 200, 2000).unwrap()
}

fn new_vault(max_leverage: Option<u16>, min_deposit: u64) -> Vault {
    let mut g = global();
    initialize_vault(&mut g, accounts(), START, 1, None, None, max_leverage, min_deposit).unwrap()
}

fn position(collateral: u64, debt: u64) -> UserPosition {
    UserPosition {
        user: [5; 32],
        vault: [6; 32],
        shares: 0,
        leverage_bps: 10_000,
        collateral,
        debt,
        last_interaction: START,
    }
}

#[test]
fn global_state_fee_caps() {
    assert_eq!(initialize_global_state([0; 32], [0; 32], 1001, 0), Err(VaultError::InvalidFeeConfig));
    assert_eq!(initialize_global_state([0; 32], [0; 32], 0, 5001), Err(VaultError::InvalidFeeConfig));
    let g = initialize_global_state([7; 32], [8; 32], 1000, 5000).unwrap();
    assert_eq!(g.authority, [7; 32]);
    assert_eq!(g.treasury, [8; 32]);
    assert_eq!(g.default_management_fee_bps, 1000);
    assert_eq!(g.default_performance_fee_bps, 5000);
    assert!(!g.paused);
    assert_eq!(g.vault_count, 0);
}

#[test]
fn initialize_vault_defaults_and_counter() {
    let mut g = global();
    let v = initialize_vault(&mut g, accounts(), START, 2, None, Some(300), None, 10).unwrap();
    assert_eq!(g.vault_count, 1);
    assert_eq!(v.vault_id, 0);
    assert_eq!(v.strategy, StrategyKind::AutoCompound);
    assert_eq!(v.authority, [4; 32]);
    assert_eq!(v.management_fee_bps, 200);
    assert_eq!(v.performance_fee_bps, 300);
    assert_eq!(v.max_leverage_bps, 10_000);
    assert_eq!(v.current_leverage_bps, 10_000);
    assert_eq!(v.rebalance_threshold_bps, 500);
    assert_eq!(v.harvest_cooldown, 3600);
    assert_eq!(v.rebalance_cooldown, 86_400);
    assert_eq!(v.last_harvest, START);
    assert_eq!(v.last_rebalance, START);
    assert_eq!(v.min_deposit, 10);
    assert_eq!(v.strategy_config, StrategyConfig::default());
    let second = initialize_vault(&mut g, accounts(), START, 0, None, None, Some(50_000), 0).unwrap();
    assert_eq!(second.vault_id, 1);
    assert_eq!(g.vault_count, 2);
}

#[test]
fn initialize_vault_refusals() {
    let mut g = global();
    assert_eq!(
        initialize_vault(&mut g, accounts(), START, 4, None, None, None, 0),
        Err(VaultError::InvalidStrategy)
    );
    assert_eq!(
        initialize_vault(&mut g, accounts(), START, 0, None, None, Some(9_999), 0),
        Err(VaultError::InvalidLeverage)
    );
    assert_eq!(
        initialize_vault(&mut g, accounts(), START, 0, None, None, Some(50_001), 0),
        Err(VaultError::InvalidLeverage)
    );
    assert_eq!(
        initialize_vault(&mut g, accounts(), START, 0, Some(1001), None, None, 0),
        Err(VaultError::InvalidFeeConfig)
    );
    assert_eq!(g.vault_count, 0);
    g.vault_count = u64::MAX;
    assert_eq!(
        initialize_vault(&mut g, accounts(), START, 0, None, None, None, 0),
        Err(VaultError::MathOverflow)
    );
    assert_eq!(g.vault_count, u64::MAX);
}

#[test]
fn deposit_scenario_empty_vault() {
    let mut v = new_vault(None, 0);
    assert_eq!(deposit(&mut v, 1_000_000), Ok(1_000_000));
    assert_eq!(v.total_assets, 1_000_000);
    assert_eq!(v.total_shares, 1_000_000);
    assert_eq!(v.high_water_mark, 1);
    assert_eq!(deposit(&mut v, 500_000), Ok(500_000));
    assert_eq!(v.total_assets, 1_500_000);
    assert_eq!(v.total_shares, 1_500_000);
    assert_eq!(v.high_water_mark, 1);
}

#[test]
fn deposit_refusals_leave_vault_unchanged() {
    let mut v = new_vault(None, 100);
    assert_eq!(deposit(&mut v, 99), Err(VaultError::DepositTooSmall));
    v.total_assets = 1_000_000;
    v.total_shares = 1;
    let before = v;
    assert_eq!(deposit(&mut v, 100), Err(VaultError::MathOverflow));
    assert_eq!(v, before);
    v.total_shares = 0;
    v.total_assets = u64::MAX;
    assert_eq!(deposit(&mut v, 100), Err(VaultError::MathOverflow));
    v.paused = true;
    assert_eq!(deposit(&mut v, 1_000), Err(VaultError::VaultPaused));
}

#[test]
fn deposit_keeps_high_water_mark_when_nav_is_lower() {
    let mut v = new_vault(None, 0);
    v.total_assets = 1_000;
    v.total_shares = 100;
    v.high_water_mark = 50;
    assert_eq!(deposit(&mut v, 100), Ok(10));
    assert_eq!(v.high_water_mark, 50);
}

#[test]
fn withdraw_returns_proportional_assets() {
    let mut v = new_vault(None, 0);
    deposit(&mut v, 1_000).unwrap();
    v.total_assets = 2_000;
    assert_eq!(withdraw(&mut v, 1_000, 2_000, 250), Ok(500));
    assert_eq!(v.total_assets, 1_500);
    assert_eq!(v.total_shares, 750);
}

#[test]
fn withdraw_refusals() {
    let mut v = new_vault(None, 0);
    assert_eq!(withdraw(&mut v, 10, 10, 10), Err(VaultError::MathOverflow));
    deposit(&mut v, 1_000).unwrap();
    let before = v;
    assert_eq!(withdraw(&mut v, 99, 1_000, 100), Err(VaultError::InsufficientFunds));
    assert_eq!(withdraw(&mut v, 100, 99, 100), Err(VaultError::InsufficientFunds));
    assert_eq!(withdraw(&mut v, 2_000, 5_000, 2_000), Err(VaultError::InsufficientFunds));
    assert_eq!(v, before);
    v.paused = true;
    assert_eq!(withdraw(&mut v, 100, 1_000, 100), Err(VaultError::VaultPaused));
}

#[test]
fn harvest_accrues_fees_and_reinvests() {
    let mut v = new_vault(None, 0);
    deposit(&mut v, 1_000_000_000).unwrap();
    let now = START + 31_536_000;
    let report = harvest(&mut v, now, 50_000_000).unwrap();
    assert_eq!(report.management_fee, 20_000_000);
    assert_eq!(report.performance_fee, 0);
    assert_eq!(report.rewards_reinvested, 30_000_000);
    assert_eq!(report.apy_estimate_bps, 300);
    assert_eq!(v.total_assets, 1_030_000_000);
    assert_eq!(v.accrued_management_fees, 20_000_000);
    assert_eq!(v.last_harvest, now);
    assert_eq!(v.high_water_mark, 1);
}

#[test]
fn harvest_charges_performance_fee_above_mark() {
    let mut v = new_vault(None, 0);
    v.total_assets = 3_000;
    v.total_shares = 1_000;
    v.high_water_mark = 1;
    v.management_fee_bps = 0;
    let report = harvest(&mut v, START + 3_600, 1_000).unwrap();
    // NAV 3 against a mark of 1: a gain of 2 at 20% floors to zero.
    assert_eq!(report.performance_fee, 0);
    assert_eq!(v.accrued_performance_fees, 0);
    v.performance_fee_bps = 5000;
    v.high_water_mark = 1;
    let report = harvest(&mut v, START + 7_200, 1_000).unwrap();
    assert_eq!(report.performance_fee, 1);
    assert_eq!(report.rewards_reinvested, 999);
    assert_eq!(v.total_assets, 4_999);
    assert_eq!(v.high_water_mark, 4);
}

#[test]
fn harvest_fees_beyond_rewards_floor_reinvestment_at_zero() {
    let mut v = new_vault(None, 0);
    deposit(&mut v, 1_000_000_000).unwrap();
    let report = harvest(&mut v, START + 31_536_000, 1_000).unwrap();
    assert_eq!(report.management_fee, 20_000_000);
    assert_eq!(report.rewards_reinvested, 0);
    assert_eq!(v.accrued_management_fees, 20_000_000);
    assert_eq!(v.total_assets, 1_000_000_000);
}

#[test]
fn harvest_twice_at_same_time_is_refused() {
    let mut v = new_vault(None, 0);
    deposit(&mut v, 1_000_000).unwrap();
    let now = START + 3_600;
    assert!(harvest(&mut v, now, 1_000).is_ok());
    let after_first = v;
    assert_eq!(harvest(&mut v, now, 1_000), Err(VaultError::HarvestNotReady));
    assert_eq!(v, after_first);
}

#[test]
fn harvest_gates() {
    let mut v = new_vault(None, 0);
    assert_eq!(harvest(&mut v, START + 3_599, 10), Err(VaultError::HarvestNotReady));
    assert_eq!(harvest(&mut v, START + 3_600, 0), Err(VaultError::HarvestNotReady));
    v.last_harvest = 1;
    assert_eq!(harvest(&mut v, i64::MIN, 10), Err(VaultError::InvalidTimestamp));
    v.paused = true;
    assert_eq!(harvest(&mut v, START + 3_600, 10), Err(VaultError::VaultPaused));
}

#[test]
fn collect_fees_pays_out_and_resets() {
    let mut v = new_vault(None, 0);
    assert_eq!(collect_fees(&mut v, true), Ok(0));
    v.accrued_management_fees = 30;
    v.accrued_performance_fees = 12;
    assert_eq!(collect_fees(&mut v, false), Err(VaultError::Unauthorized));
    assert_eq!(v.accrued_management_fees, 30);
    assert_eq!(collect_fees(&mut v, true), Ok(42));
    assert_eq!(v.accrued_management_fees, 0);
    assert_eq!(v.accrued_performance_fees, 0);
    v.accrued_management_fees = u64::MAX;
    v.accrued_performance_fees = 1;
    assert_eq!(collect_fees(&mut v, true), Err(VaultError::MathOverflow));
    v.paused = true;
    assert_eq!(collect_fees(&mut v, true), Err(VaultError::VaultPaused));
}

#[test]
fn rebalance_records_new_allocation() {
    let mut v = new_vault(None, 0);
    let now = START + 86_400;
    assert_eq!(rebalance(&mut v, now, [4000, 3000, 2000, 1000], false), Ok(()));
    assert_eq!(v.strategy_config.current_allocations, [4000, 3000, 2000, 1000]);
    assert_eq!(v.strategy_config.target_allocations, [4000, 3000, 2000, 1000]);
    assert_eq!(v.last_rebalance, now);
}

#[test]
fn rebalance_gates() {
    let mut v = new_vault(None, 0);
    assert_eq!(
        rebalance(&mut v, START + 86_399, [4000, 3000, 2000, 1000], true),
        Err(VaultError::RebalanceThresholdNotMet)
    );
    let now = START + 86_400;
    assert_eq!(
        rebalance(&mut v, now, [4000, 3000, 2000, 999], true),
        Err(VaultError::InvalidRebalanceParams)
    );
    v.strategy_config.current_allocations = [4000, 3000, 2000, 1000];
    assert_eq!(
        rebalance(&mut v, now, [4500, 2500, 2000, 1000], true),
        Err(VaultError::RebalanceThresholdNotMet)
    );
    v.strategy_config.oracle_price_feed = Some([7; 32]);
    assert_eq!(
        rebalance(&mut v, now, [2500, 2500, 2500, 2500], false),
        Err(VaultError::StaleOraclePrice)
    );
    assert_eq!(v.last_rebalance, START);
    assert_eq!(rebalance(&mut v, now, [2500, 2500, 2500, 2500], true), Ok(()));
    v.paused = true;
    assert_eq!(
        rebalance(&mut v, now + 86_400, [4000, 3000, 2000, 1000], true),
        Err(VaultError::VaultPaused)
    );
}

#[test]
fn strategy_config_update_requires_authority() {
    let mut v = new_vault(None, 0);
    let mut config = StrategyConfig::default();
    config.collateral_factor_bps = Some(7000);
    assert_eq!(update_strategy_config(&mut v, false, config), Err(VaultError::Unauthorized));
    assert_eq!(v.strategy_config.collateral_factor_bps, None);
    assert_eq!(update_strategy_config(&mut v, true, config), Ok(()));
    assert_eq!(v.strategy_config.collateral_factor_bps, Some(7000));
}

#[test]
fn vault_params_update_is_all_or_nothing() {
    let mut v = new_vault(None, 0);
    assert_eq!(
        update_vault_params(&mut v, true, Some(500), Some(5001), None, None, None, None),
        Err(VaultError::InvalidFeeConfig)
    );
    assert_eq!(v.management_fee_bps, 200);
    assert_eq!(
        update_vault_params(&mut v, true, Some(500), None, Some(-1), None, None, None),
        Err(VaultError::InvalidTimestamp)
    );
    assert_eq!(
        update_vault_params(&mut v, false, Some(500), None, None, None, None, None),
        Err(VaultError::Unauthorized)
    );
    assert_eq!(v.management_fee_bps, 200);
    assert_eq!(
        update_vault_params(&mut v, true, Some(500), None, Some(0), Some(60), Some(100), Some(7)),
        Ok(())
    );
    assert_eq!(v.management_fee_bps, 500);
    assert_eq!(v.performance_fee_bps, 2000);
    assert_eq!(v.harvest_cooldown, 0);
    assert_eq!(v.rebalance_cooldown, 60);
    assert_eq!(v.rebalance_threshold_bps, 100);
    assert_eq!(v.min_deposit, 7);
}

#[test]
fn liquidation_of_healthy_position_is_refused() {
    let mut v = new_vault(Some(30_000), 0);
    v.total_assets = 1_000;
    let mut p = position(150, 100);
    assert_eq!(liquidate(&mut v, &mut p, true, 10), Err(VaultError::LiquidationNotNeeded));
    let mut no_debt = position(150, 0);
    assert_eq!(liquidate(&mut v, &mut no_debt, true, 10), Err(VaultError::LiquidationNotNeeded));
    assert_eq!(v.total_assets, 1_000);
}

#[test]
fn liquidation_of_unhealthy_position() {
    let mut v = new_vault(Some(30_000), 0);
    v.total_assets = 1_000;
    let mut p = position(100, 100);
    assert_eq!(liquidate(&mut v, &mut p, false, 50), Ok(52));
    assert_eq!(v.total_assets, 950);
    assert_eq!(p.collateral, 50);
    assert_eq!(p.debt, 48);
    assert_eq!(v.current_leverage_bps, 19_600);
    assert!(v.current_leverage_bps <= v.max_leverage_bps);
}

#[test]
fn liquidation_leverage_is_capped_at_maximum() {
    let mut v = new_vault(Some(15_000), 0);
    v.total_assets = 1_000;
    let mut p = position(100, 100);
    assert_eq!(liquidate(&mut v, &mut p, true, 50), Ok(52));
    assert_eq!(v.current_leverage_bps, 15_000);
    let mut all = position(100, 200);
    assert_eq!(liquidate(&mut v, &mut all, true, 100), Ok(105));
    assert_eq!(all.collateral, 0);
    assert_eq!(v.current_leverage_bps, 10_000);
}

#[test]
fn liquidation_refusals() {
    let mut v = new_vault(Some(30_000), 0);
    v.total_assets = 1_000;
    let mut p = position(100, 100);
    assert_eq!(liquidate(&mut v, &mut p, true, 101), Err(VaultError::InsufficientFunds));
    let mut small_debt = position(100, 90);
    assert_eq!(liquidate(&mut v, &mut small_debt, true, 90), Err(VaultError::MathOverflow));
    v.strategy_config.oracle_price_feed = Some([1; 32]);
    assert_eq!(liquidate(&mut v, &mut p, false, 10), Err(VaultError::StaleOraclePrice));
    v.paused = true;
    assert_eq!(liquidate(&mut v, &mut p, true, 10), Err(VaultError::VaultPaused));
    assert_eq!(p, position(100, 100));
    assert_eq!(v.total_assets, 1_000);
}

#[test]
fn liquidation_threshold_from_config() {
    let mut v = new_vault(Some(30_000), 0);
    v.total_assets = 1_000;
    v.strategy_config.liquidation_threshold_bps = Some(12_001);
    let mut p = position(150, 100);
    assert_eq!(liquidate(&mut v, &mut p, true, 10), Ok(10));
    v.strategy_config.collateral_factor_bps = Some(10_000);
    let mut q = position(150, 100);
    assert_eq!(liquidate(&mut v, &mut q, true, 10), Err(VaultError::LiquidationNotNeeded));
}

#[test]
fn adjust_leverage_sets_debt() {
    let mut v = new_vault(Some(30_000), 0);
    v.total_assets = 1_000;
    let mut p = position(1_000, 0);
    assert_eq!(adjust_leverage(&mut v, &mut p, true, START + 5, 25_000, 200), Ok(1_800));
    assert_eq!(p.collateral, 1_200);
    assert_eq!(p.debt, 1_800);
    assert_eq!(p.leverage_bps, 25_000);
    assert_eq!(p.last_interaction, START + 5);
    assert_eq!(v.total_assets, 1_200);
    assert_eq!(v.current_leverage_bps, 25_000);
    assert_eq!(adjust_leverage(&mut v, &mut p, true, START + 6, 10_000, 0), Ok(0));
    assert_eq!(p.debt, 0);
    assert!(v.current_leverage_bps <= v.max_leverage_bps);
}

#[test]
fn adjust_leverage_refusals() {
    let mut v = new_vault(Some(30_000), 0);
    let mut p = position(1_000, 0);
    assert_eq!(adjust_leverage(&mut v, &mut p, true, START, 9_999, 0), Err(VaultError::InvalidLeverage));
    assert_eq!(adjust_leverage(&mut v, &mut p, true, START, 30_001, 0), Err(VaultError::InvalidLeverage));
    assert_eq!(adjust_leverage(&mut v, &mut p, false, START, 20_000, 0), Err(VaultError::Unauthorized));
    assert_eq!(
        adjust_leverage(&mut v, &mut p, true, START, 20_000, u64::MAX),
        Err(VaultError::MathOverflow)
    );
    v.paused = true;
    assert_eq!(adjust_leverage(&mut v, &mut p, true, START, 20_000, 0), Err(VaultError::VaultPaused));
    assert_eq!(p, position(1_000, 0));
}

#[test]
fn pause_and_unpause() {
    let mut v = new_vault(None, 0);
    assert_eq!(unpause_vault(&mut v, true), Err(VaultError::VaultNotPaused));
    assert_eq!(pause_vault(&mut v, false), Err(VaultError::Unauthorized));
    assert_eq!(pause_vault(&mut v, true), Ok(()));
    assert!(v.paused);
    assert_eq!(pause_vault(&mut v, true), Err(VaultError::VaultNotPaused));
    assert_eq!(unpause_vault(&mut v, false), Err(VaultError::Unauthorized));
    assert_eq!(unpause_vault(&mut v, true), Ok(()));
    assert!(!v.paused);
}

#[test]
fn high_water_mark_never_falls_over_a_run() {
    let mut v = new_vault(None, 0);
    let mut mark = v.high_water_mark;
    let mut now = START;
    for step in 0..20u64 {
        if step % 2 == 0 {
            let _ = deposit(&mut v, 1_000 + step * 37);
        } else {
            now += 3_600;
            let _ = harvest(&mut v, now, 500 + step * 11);
        }
        assert!(v.high_water_mark >= mark);
        mark = v.high_water_mark;
    }
    v.total_assets /= 3;
    let _ = deposit(&mut v, 10);
    assert!(v.high_water_mark >= mark);
}
