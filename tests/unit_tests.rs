use maek_protocol::utils::calculations::{
    apply_pnl, calculate_apy, calculate_fund_tokens, calculate_nav_per_share,
    calculate_share_value, calculate_withdrawal_amount, update_nav_with_pnl,
};
use maek_protocol::utils::validation::validate_deposit_amount;

#[test]
fn test_tc_010_first_deposit_bootstrap() {
    let deposit_amount = 1_000_000_000u64;
    let nav_per_share = 100_000_000u64;
    let result = calculate_fund_tokens(deposit_amount, nav_per_share).unwrap();
    let expected_fund_tokens = 100_000_000_000u64;
    assert_eq!(result, expected_fund_tokens);
}

#[test]
fn test_tc_011_subsequent_deposit_higher_nav() {
    let nav_per_share = 102_000_000u64;
    let deposit_amount = 510_000_000u64;
    let result = calculate_fund_tokens(deposit_amount, nav_per_share).unwrap();
    let expected_fund_tokens = 50_000_000_000u64;
    assert_eq!(result, expected_fund_tokens);
}

#[test]
fn test_tc_012_minimum_deposit_validation() {
    let invalid_amount = 5_000_000u64;
    let result = validate_deposit_amount(invalid_amount);
    assert!(result.is_err());
}

#[test]
fn test_tc_013_maximum_deposit_validation() {
    let invalid_amount = 2_000_000_000_000u64;
    let result = validate_deposit_amount(invalid_amount);
    assert!(result.is_err());
}

#[test]
fn test_tc_020_daily_yield_distribution() {
    let total_assets = 1_000_000_000_000u64;
    let total_shares = 1_000_000_000_000u64;
    let expected_daily_yield = 123_287_671u64;
    let new_total_assets = apply_pnl(total_assets, expected_daily_yield as i64).unwrap();
    let new_nav = calculate_nav_per_share(new_total_assets, total_shares).unwrap();
    let expected_nav = 100_012_328u64;
    assert_eq!(new_nav, expected_nav);
}

#[test]
fn test_tc_021_user_benefit_nav_rebase() {
    let user_tokens = 100_000_000_000u64;
    let new_nav = 100_012_328u64;
    let user_value = calculate_share_value(user_tokens, new_nav).unwrap();
    let expected_value = 100_012_328_000u64;
    assert_eq!(user_value, expected_value);
}

#[test]
fn test_tc_030_market_loss_nav_decrease() {
    let total_assets = 1_000_000_000_000u64;
    let total_shares = 1_000_000_000_000u64;
    let loss_amount = 500_000_000u64;
    let (_, new_nav) = update_nav_with_pnl(total_assets, total_shares, -(loss_amount as i64)).unwrap();
    let expected_nav = 99_950_000u64;
    assert_eq!(new_nav, expected_nav);
}

#[test]
fn test_tc_031_user_loss_nav_rebase() {
    let user_tokens = 100_000_000_000u64;
    let loss_nav = 99_950_000u64;
    let user_value = calculate_share_value(user_tokens, loss_nav).unwrap();
    let expected_value = 99_950_000_000u64;
    assert_eq!(user_value, expected_value);
}

#[test]
fn test_tc_033_loss_recovery_scenario() {
    let assets_after_loss = 995_000_000_000u64;
    let recovery_yield = 7_500_000_000u64;
    let total_shares = 1_000_000_000_000u64;
    let (_, new_nav) = update_nav_with_pnl(assets_after_loss, total_shares, recovery_yield as i64).unwrap();
    let expected_nav = 100_250_000u64;
    assert_eq!(new_nav, expected_nav);
}

#[test]
fn test_tc_040_full_withdrawal_nav_par() {
    let user_tokens = 100_000_000_000u64;
    let nav_per_share = 100_000_000u64;
    let result = calculate_withdrawal_amount(user_tokens, nav_per_share).unwrap();
    let expected_usdc = 1_000_000_000u64;
    assert_eq!(result, expected_usdc);
}

#[test]
fn test_tc_041_partial_withdrawal_higher_nav() {
    let partial_tokens = 50_000_000_000u64;
    let nav_per_share = 102_000_000u64;
    let result = calculate_withdrawal_amount(partial_tokens, nav_per_share).unwrap();
    let expected_usdc = 510_000_000u64;
    assert_eq!(result, expected_usdc);
}

#[test]
fn test_tc_042_withdrawal_loss_nav() {
    let user_tokens = 100_000_000_000u64;
    let loss_nav = 99_500_000u64;
    let result = calculate_withdrawal_amount(user_tokens, loss_nav).unwrap();
    let expected_usdc = 995_000_000u64;
    let realized_loss = 1_000_000_000u64 - expected_usdc;
    assert_eq!(result, expected_usdc);
    assert_eq!(realized_loss, 5_000_000);
}

#[test]
fn test_tc_070_complete_buidl_mechanism_flow() {
    let mut fund_assets = 0u64;
    let mut fund_shares = 0u64;

    let user_a_deposit = 1_000_000_000_000u64;
    fund_assets = apply_pnl(fund_assets, user_a_deposit as i64).unwrap();
    fund_shares += user_a_deposit;

    let user_b_deposit = 500_000_000_000u64;
    fund_assets = apply_pnl(fund_assets, user_b_deposit as i64).unwrap();
    fund_shares += user_b_deposit;

    let daily_yield = 2_055_000_000i64;
    let (assets, _) = update_nav_with_pnl(fund_assets, fund_shares, daily_yield).unwrap();
    fund_assets = assets;

    let market_loss = 5_000_000_000i64;
    let (assets, _) = update_nav_with_pnl(fund_assets, fund_shares, -market_loss).unwrap();
    fund_assets = assets;

    let strong_yield = 7_500_000_000i64;
    let (_, nav) = update_nav_with_pnl(fund_assets, fund_shares, strong_yield).unwrap();

    assert!(nav > 100_000_000);
}

#[test]
fn unit_tests_test_update_nav_with_profit() {
    let assets = 1_000_000_000_000u64;
    let shares = 1_000_000_000_000u64;
    let profit = 123_287_671i64;
    let (new_assets, new_nav) = update_nav_with_pnl(assets, shares, profit).unwrap();
    assert_eq!(new_assets, 1_000_123_287_671u64);
    assert_eq!(new_nav, 100_012_328u64);
}

#[test]
fn unit_tests_test_update_nav_with_loss() {
    let assets = 1_000_000_000_000u64;
    let shares = 1_000_000_000_000u64;
    let loss = -5_000_000_000i64;
    let (new_assets, new_nav) = update_nav_with_pnl(assets, shares, loss).unwrap();
    assert_eq!(new_assets, 995_000_000_000u64);
    assert_eq!(new_nav, 99_500_000u64);
}

#[test]
fn test_calculate_apy_realistic() {
    let mut daily_yields = [0u64; 365];
    daily_yields.fill(123_287_671);
    let total_assets = 1_000_000_000_000u64;
    let apy = calculate_apy(&daily_yields, total_assets);
    let expected_apy = 450u32;
    assert!((apy as i32 - expected_apy as i32).abs() < 10);
    assert_eq!(apy, 449);
}
