use maek_protocol::consistency::check_fund_state;
use maek_protocol::error::ErrorCode;
use maek_protocol::instructions::invest_fixed_income::AssetPurchase;
use maek_protocol::instructions::update_nav::AssetValuation;
use maek_protocol::instructions::{
    deposit, initialize_fund, invest_in_fixed_income, pause_fund, unpause_fund, update_nav, withdraw,
};
use maek_protocol::state::{FundState, UserFundAccount};

const OWNER: [u8; 32] = [7u8; 32];
const DAY: i64 = 86_400;

fn new_fund() -> FundState {
    initialize_fund([1u8; 32], [2u8; 32], [3u8; 32], [4u8; 32], 15, 25, 1_000, 254).unwrap()
}

fn snapshot<T: std::fmt::Debug>(v: &T) -> String {
    format!("{:?}", v)
}

fn consistent(f: &FundState) -> bool {
    check_fund_state(f).is_ok()
}

#[test]
fn initialize_sets_up_fund() {
    let f = new_fund();
    assert_eq!(f.admin_authority, [1u8; 32]);
    assert_eq!(f.usdc_vault, [4u8; 32]);
    assert_eq!(f.treasury_vault, [0u8; 32]);
    assert_eq!(f.nav_per_share, 100_000_000);
    assert_eq!(f.management_fee_bps, 15);
    assert_eq!(f.target_liquidity_ratio, 25);
    assert_eq!(f.inception_date, 1_000);
    assert_eq!(f.last_nav_update, 1_000);
    assert_eq!(f.bump, 254);
    assert_eq!((f.total_assets, f.total_shares, f.cash_reserves), (0, 0, 0));
    assert!(!f.is_paused);
}

#[test]
fn initialize_errors() {
    let r = initialize_fund([1u8; 32], [2u8; 32], [3u8; 32], [4u8; 32], 101, 25, 0, 0);
    assert_eq!(r.unwrap_err(), ErrorCode::FeeTooHigh);
    let r = initialize_fund([1u8; 32], [2u8; 32], [3u8; 32], [4u8; 32], 100, 9, 0, 0);
    assert_eq!(r.unwrap_err(), ErrorCode::InvalidLiquidityRatio);
    let r = initialize_fund([1u8; 32], [2u8; 32], [3u8; 32], [4u8; 32], 100, 51, 0, 0);
    assert_eq!(r.unwrap_err(), ErrorCode::InvalidLiquidityRatio);
    assert!(initialize_fund([1u8; 32], [2u8; 32], [3u8; 32], [4u8; 32], 100, 50, 0, 0).is_ok());
}

#[test]
fn default_records() {
    let f = FundState::default();
    assert_eq!(f.nav_per_share, 100_000_000);
    assert_eq!(f.target_liquidity_ratio, 25);
    let u = UserFundAccount::default();
    assert_eq!(u.owner, [0u8; 32]);
    assert_eq!(u.fund_tokens, 0);
}

#[test]
fn first_deposit_mints_at_par_and_claims_account() {
    let mut f = new_fund();
    let mut u = UserFundAccount::default();
    let minted = deposit(&mut f, &mut u, OWNER, 1_000_000_000, 2_000).unwrap();
    assert_eq!(minted, 100_000_000_000);
    assert_eq!(f.total_assets, 100_000_000_000);
    assert_eq!(f.total_shares, 100_000_000_000);
    assert_eq!(f.cash_reserves, 1_000_000_000);
    assert_eq!(f.total_depositors, 1);
    assert_eq!(u.owner, OWNER);
    assert_eq!(u.created_at, 2_000);
    assert_eq!(u.fund_tokens, 100_000_000_000);
    assert_eq!(u.total_deposited, 100_000_000_000);
    assert_eq!(u.deposit_count, 1);
    assert_eq!(u.avg_cost_basis, 100_000_000);
    assert_eq!(u.last_deposit_nav, 100_000_000);
    assert_eq!(u.last_deposit_time, 2_000);
    assert!(consistent(&f));
}

#[test]
fn second_deposit_averages_cost_basis() {
    let mut f = new_fund();
    let mut u = UserFundAccount::default();
    deposit(&mut f, &mut u, OWNER, 1_000_000_000, 2_000).unwrap();
    f.nav_per_share = 102_000_000;
    let minted = deposit(&mut f, &mut u, [9u8; 32], 510_000_000, 3_000).unwrap();
    assert_eq!(minted, 50_000_000_000);
    assert_eq!(u.fund_tokens, 150_000_000_000);
    // (1.00 * 1000 + 1.02 * 500) / 1500
    assert_eq!(u.avg_cost_basis, 100_666_666);
    assert_eq!(u.owner, OWNER);
    assert_eq!(u.created_at, 2_000);
    assert_eq!(u.deposit_count, 2);
    assert_eq!(f.total_depositors, 1);
    assert_eq!(f.total_shares, 150_000_000_000);
    assert_eq!(f.total_assets, 151_000_000_000);
}

#[test]
fn deposit_errors_leave_state_unchanged() {
    let mut f = new_fund();
    let mut u = UserFundAccount::default();
    let (f0, u0) = (snapshot(&f), snapshot(&u));
    assert_eq!(deposit(&mut f, &mut u, OWNER, 999_999, 0), Err(ErrorCode::DepositTooSmall));
    assert_eq!(deposit(&mut f, &mut u, OWNER, 1_000_000_000_001, 0), Err(ErrorCode::DepositTooLarge));
    f.nav_per_share = 0;
    assert_eq!(deposit(&mut f, &mut u, OWNER, 1_000_000, 0), Err(ErrorCode::InvalidNAV));
    f.nav_per_share = 100_000_000;
    f.total_shares = u64::MAX;
    assert_eq!(deposit(&mut f, &mut u, OWNER, 1_000_000, 0), Err(ErrorCode::MathOverflow));
    f.total_shares = 0;
    pause_fund(&mut f);
    assert_eq!(deposit(&mut f, &mut u, OWNER, 1_000_000, 0), Err(ErrorCode::FundPaused));
    unpause_fund(&mut f);
    assert_eq!((snapshot(&f), snapshot(&u)), (f0, u0));
}

#[test]
fn full_withdrawal_at_par() {
    let mut f = new_fund();
    let mut u = UserFundAccount::default();
    deposit(&mut f, &mut u, OWNER, 1_000_000_000, 2_000).unwrap();
    let paid = withdraw(&mut f, &mut u, 100_000_000_000, 3_000).unwrap();
    assert_eq!(paid, 1_000_000_000);
    assert_eq!((f.total_assets, f.total_shares, f.cash_reserves), (0, 0, 0));
    assert_eq!(u.fund_tokens, 0);
    assert_eq!(u.total_withdrawn, 100_000_000_000);
    assert_eq!(u.withdrawal_count, 1);
    assert_eq!(u.last_withdrawal_time, 3_000);
}

#[test]
fn withdrawal_at_higher_nav() {
    let mut f = new_fund();
    let mut u = UserFundAccount::default();
    deposit(&mut f, &mut u, OWNER, 1_000_000_000, 2_000).unwrap();
    // extra cash so the fund can pay the gain
    f.cash_reserves = 2_000_000_000;
    f.total_assets = 200_000_000_000;
    f.nav_per_share = 102_000_000;
    let paid = withdraw(&mut f, &mut u, 100_000_000_000, 3_000).unwrap();
    assert_eq!(paid, 1_020_000_000);
    assert_eq!(f.cash_reserves, 980_000_000);
    assert_eq!(f.total_assets, 98_000_000_000);
}

#[test]
fn withdrawal_beyond_cash_is_refused_whole() {
    let mut f = new_fund();
    let mut u = UserFundAccount::default();
    deposit(&mut f, &mut u, OWNER, 1_000_000_000, 2_000).unwrap();
    let order = AssetPurchase { asset_type: 1, amount: 600_000_000, maturity_date: 10 * DAY, yield_rate: 450 };
    assert_eq!(invest_in_fixed_income(&mut f, &vec![order], 3_000), Ok(600_000_000));
    assert_eq!(f.cash_reserves, 400_000_000);
    assert_eq!(f.fixed_income_value, 60_000_000_000);
    let (f0, u0) = (snapshot(&f), snapshot(&u));
    assert_eq!(withdraw(&mut f, &mut u, 100_000_000_000, 4_000), Err(ErrorCode::InsufficientLiquidity));
    assert_eq!((snapshot(&f), snapshot(&u)), (f0, u0));
    assert_eq!(withdraw(&mut f, &mut u, 40_000_000_000, 4_000), Ok(400_000_000));
}

#[test]
fn withdrawal_errors() {
    let mut f = new_fund();
    let mut u = UserFundAccount::default();
    deposit(&mut f, &mut u, OWNER, 1_000_000_000, 2_000).unwrap();
    assert_eq!(withdraw(&mut f, &mut u, 0, 0), Err(ErrorCode::WithdrawAmountZero));
    assert_eq!(withdraw(&mut f, &mut u, 100_000_000_001, 0), Err(ErrorCode::InsufficientFundTokens));
    pause_fund(&mut f);
    assert!(f.is_paused);
    assert_eq!(withdraw(&mut f, &mut u, 1, 0), Err(ErrorCode::FundPaused));
    unpause_fund(&mut f);
    assert!(!f.is_paused);
    f.nav_per_share = 0;
    assert_eq!(withdraw(&mut f, &mut u, 1, 0), Err(ErrorCode::InvalidNAV));
}

#[test]
fn deposit_then_withdraw_all_returns_amount() {
    let mut f = new_fund();
    f.nav_per_share = 103_000_000;
    let mut u = UserFundAccount::default();
    let minted = deposit(&mut f, &mut u, OWNER, 777_777_777, 2_000).unwrap();
    let back = withdraw(&mut f, &mut u, minted, 2_001).unwrap();
    assert_eq!(back, 777_777_776);
    assert_eq!(f.total_shares, 0);
    assert_eq!(f.cash_reserves, 1);
}

fn marked_fund() -> FundState {
    let mut f = new_fund();
    f.total_shares = 1_000_000_000_000;
    f.total_assets = 1_000_000_000_000;
    f.cash_reserves = 5_000_000_000;
    f.fixed_income_value = 500_000_000_000;
    f
}

fn marks() -> Vec<AssetValuation> {
    vec![
        AssetValuation { asset_id: [5u8; 32], current_value: 300_000_000_000 },
        AssetValuation { asset_id: [6u8; 32], current_value: 200_000_000_000 },
    ]
}

#[test]
fn nav_update_with_profit() {
    let mut f = marked_fund();
    let now = 1_000 + DAY;
    assert_eq!(update_nav(&mut f, &marks(), 123_287_671, now), Ok((1_000_123_287_671, 100_012_328)));
    assert_eq!(f.total_assets, 1_000_123_287_671);
    assert_eq!(f.nav_per_share, 100_012_328);
    assert_eq!(f.last_nav_update, now);
    assert_eq!(f.total_yield_distributed, 123_287_671);
    assert!(consistent(&f));
}

#[test]
fn nav_update_with_loss() {
    let mut f = marked_fund();
    assert_eq!(update_nav(&mut f, &marks(), -5_000_000_000, 1_000 + DAY), Ok((995_000_000_000, 99_500_000)));
    assert_eq!(f.total_yield_distributed, 0);
}

#[test]
fn nav_updates_are_rate_limited() {
    let mut f = marked_fund();
    let first = 1_000 + DAY;
    update_nav(&mut f, &marks(), 0, first).unwrap();
    let before = snapshot(&f);
    assert_eq!(update_nav(&mut f, &marks(), 0, first + 82_799), Err(ErrorCode::NAVUpdateTooFrequent));
    assert_eq!(update_nav(&mut f, &vec![], 1, first + 60), Err(ErrorCode::NAVUpdateTooFrequent));
    assert_eq!(snapshot(&f), before);
    assert!(update_nav(&mut f, &marks(), 0, first + 82_800).is_ok());
}

#[test]
fn nav_update_out_of_bounds_changes_nothing() {
    let mut f = marked_fund();
    let before = snapshot(&f);
    let now = 1_000 + DAY;
    assert_eq!(update_nav(&mut f, &marks(), -50_000_000_001, now), Err(ErrorCode::NAVTooLow));
    assert_eq!(update_nav(&mut f, &marks(), 50_000_010_000, now), Err(ErrorCode::NAVTooHigh));
    assert_eq!(snapshot(&f), before);
    assert_eq!(update_nav(&mut f, &marks(), -50_000_000_000, now), Ok((950_000_000_000, 95_000_000)));
}

#[test]
fn nav_update_errors() {
    let now = 1_000 + DAY;
    let mut f = marked_fund();
    assert_eq!(update_nav(&mut f, &marks(), -1_000_000_000_001, now), Err(ErrorCode::InsufficientFunds));
    let huge = vec![AssetValuation { asset_id: [5u8; 32], current_value: u64::MAX }];
    assert_eq!(update_nav(&mut f, &huge, 0, now), Err(ErrorCode::MathOverflow));
    pause_fund(&mut f);
    assert_eq!(update_nav(&mut f, &marks(), 0, now), Err(ErrorCode::FundPaused));
}

#[test]
fn nav_update_without_shares_keeps_nav() {
    let mut f = new_fund();
    f.cash_reserves = 10;
    assert_eq!(update_nav(&mut f, &vec![], 7, 1_000 + DAY), Ok((1_007, 100_000_000)));
}

#[test]
fn deposit_keeps_fund_reconciled() {
    let mut f = marked_fund();
    let mut u = UserFundAccount::default();
    update_nav(&mut f, &marks(), 1_000_000_000, 1_000 + DAY).unwrap();
    deposit(&mut f, &mut u, OWNER, 123_456_789, 2 * DAY).unwrap();
    assert!(consistent(&f));
}

#[test]
fn invest_batch_checks_every_order() {
    let mut f = new_fund();
    f.cash_reserves = 1_000;
    let before = snapshot(&f);
    let good = AssetPurchase { asset_type: 1, amount: 100, maturity_date: 5_000, yield_rate: 2_000 };
    let zero = AssetPurchase { amount: 0, ..good };
    let matured = AssetPurchase { maturity_date: 4_000, ..good };
    let rich = AssetPurchase { yield_rate: 2_001, ..good };
    assert_eq!(invest_in_fixed_income(&mut f, &vec![good, zero, matured], 4_000), Err(ErrorCode::InvalidAmount));
    assert_eq!(invest_in_fixed_income(&mut f, &vec![good, matured, zero], 4_000), Err(ErrorCode::InvalidMaturityDate));
    assert_eq!(invest_in_fixed_income(&mut f, &vec![rich], 4_000), Err(ErrorCode::InvalidYieldRate));
    let big = AssetPurchase { amount: 901, ..good };
    assert_eq!(invest_in_fixed_income(&mut f, &vec![good, big], 4_000), Err(ErrorCode::InsufficientLiquidity));
    let max = AssetPurchase { amount: u64::MAX, ..good };
    assert_eq!(invest_in_fixed_income(&mut f, &vec![good, max], 4_000), Err(ErrorCode::MathOverflow));
    assert_eq!(snapshot(&f), before);
    assert_eq!(invest_in_fixed_income(&mut f, &vec![good, good], 4_000), Ok(200));
    assert_eq!(f.cash_reserves, 800);
    assert_eq!(f.fixed_income_value, 20_000);
    assert_eq!(invest_in_fixed_income(&mut f, &vec![], 4_000), Ok(0));
}

#[test]
fn tiny_withdrawal_can_unsettle_nav() {
    // 99 units of 10^-8 tokens are worth nothing once rounded to 6 decimals,
    // so burning them leaves the assets behind for the last unit.
    let mut f = new_fund();
    f.total_assets = 100;
    f.total_shares = 100;
    f.cash_reserves = 1;
    let mut u = UserFundAccount::default();
    u.fund_tokens = 99;
    assert!(consistent(&f));
    assert_eq!(withdraw(&mut f, &mut u, 99, 2_000), Ok(0));
    assert_eq!((f.total_assets, f.total_shares), (100, 1));
    assert!(!consistent(&f));
}

#[test]
fn inconsistent_fund_is_reported() {
    let mut f = marked_fund();
    assert!(consistent(&f));
    f.cash_reserves = 0;
    assert_eq!(check_fund_state(&f), Err(ErrorCode::InconsistentFundState));
}

#[test]
fn marks_past_64_bits_are_summed_wide() {
    let mut f = new_fund();
    f.total_shares = 1;
    let wide = vec![
        AssetValuation { asset_id: [5u8; 32], current_value: u64::MAX },
        AssetValuation { asset_id: [6u8; 32], current_value: 1 },
    ];
    let before = snapshot(&f);
    // the loss brings the total back into range; the NAV bound then decides
    assert_eq!(update_nav(&mut f, &wide, -1_000_000, 1_000 + DAY), Err(ErrorCode::NAVTooHigh));
    assert_eq!(snapshot(&f), before);
    // with as many shares as assets the same marks give a NAV of $1.00
    f.total_shares = 18_446_744_073_708_551_616;
    assert_eq!(
        update_nav(&mut f, &wide, -1_000_000, 1_000 + DAY),
        Ok((18_446_744_073_708_551_616, 100_000_000))
    );
    // without a loss the total does not fit in 64 bits
    let mut g = new_fund();
    g.total_shares = 1;
    assert_eq!(update_nav(&mut g, &wide, 0, 1_000 + DAY), Err(ErrorCode::MathOverflow));
}
