use maek_protocol::utils::calculations::{
    apply_pnl, calculate_apy, calculate_fund_tokens, calculate_nav_per_share,
    calculate_share_value, calculate_withdrawal_amount,
};
use maek_protocol::utils::validation::{validate_fund_state_consistency, validate_nav_parameters};

#[test]
fn tc_060_nav_boundary_validations() {
    let nav_too_low = 94_000_000u64;
    let nav_too_high = 106_000_000u64;
    let nav_valid = 100_000_000u64;
    assert!(validate_nav_parameters(nav_too_low).is_err());
    assert!(validate_nav_parameters(nav_too_high).is_err());
    assert!(validate_nav_parameters(nav_valid).is_ok());
}

#[test]
fn tc_061_mathematical_overflow_protection() {
    let large_amount = u64::MAX / 1000;
    let nav = 100_000_000u64;
    let result = calculate_share_value(large_amount, nav);
    assert_eq!(result, Ok(large_amount));
}

#[test]
fn tc_062_state_consistency_validation() {
    let cash_reserves = 500_000_000u64;
    let fixed_income_value = 50_000_000_000u64;
    let total_assets = 100_000_000_000u64;
    assert_eq!(
        validate_fund_state_consistency(total_assets, 0, 100_000_000, cash_reserves, fixed_income_value),
        Ok(())
    );
}

#[test]
fn tc_070_complete_buidl_mechanism_flow() {
    let mut fund_assets = 0u64;
    let mut fund_shares = 0u64;

    let user_a_deposit = 1_000_000_000_000u64;
    fund_assets = apply_pnl(fund_assets, user_a_deposit as i64).unwrap();
    fund_shares += user_a_deposit;

    let user_b_deposit = 500_000_000_000u64;
    fund_assets = apply_pnl(fund_assets, user_b_deposit as i64).unwrap();
    fund_shares += user_b_deposit;

    let daily_yield = 2_055_000_000i64;
    fund_assets = apply_pnl(fund_assets, daily_yield).unwrap();
    let nav = calculate_nav_per_share(fund_assets, fund_shares).unwrap();
    assert_eq!(nav, 100_137_000);

    let market_loss = 5_000_000_000i64;
    fund_assets = apply_pnl(fund_assets, -market_loss).unwrap();
    let nav = calculate_nav_per_share(fund_assets, fund_shares).unwrap();
    assert_eq!(nav, 99_803_666);

    let strong_yield = 7_500_000_000i64;
    fund_assets = apply_pnl(fund_assets, strong_yield).unwrap();
    let nav = calculate_nav_per_share(fund_assets, fund_shares).unwrap();

    assert!(nav > 100_000_000);
}

#[test]
fn tc_072_multi_user_yield_scenarios() {
    let final_nav = 105_000_000u64;
    let user_a_value = calculate_share_value(100_000_000_000, final_nav).unwrap();
    let user_b_value = calculate_share_value(49_019_607_843, final_nav).unwrap();
    let user_c_value = calculate_share_value(196_078_431_372, final_nav).unwrap();
    assert!(user_a_value > 100_000_000_000);
    assert!(user_b_value > 50_000_000_000);
    assert!(user_c_value > 200_000_000_000);
}

#[test]
fn test_calculate_fund_tokens() {
    let deposit_amount = 1_000_000_000u64;
    let nav_per_share = 100_000_000u64;
    let result = calculate_fund_tokens(deposit_amount, nav_per_share).unwrap();
    let expected = 100_000_000_000u64;
    assert_eq!(result, expected);
}

#[test]
fn test_suite_test_calculate_withdrawal_amount() {
    let fund_tokens = 100_000_000_000u64;
    let nav_per_share = 102_000_000u64;
    let result = calculate_withdrawal_amount(fund_tokens, nav_per_share).unwrap();
    let expected = 1_020_000_000u64;
    assert_eq!(result, expected);
}

#[test]
fn test_calculate_apy() {
    let mut daily_yields = [0u64; 365];
    daily_yields.fill(123_287_671);
    let total_assets = 1_000_000_000_000u64;
    let apy = calculate_apy(&daily_yields, total_assets);
    let expected_apy = 450u32;
    assert!((apy as i32 - expected_apy as i32).abs() < 10);
}
