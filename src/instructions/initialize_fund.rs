//! Setting up the fund record.
use vstd::prelude::*;

use crate::error::ErrorCode;
use crate::state::{is_unset_address, Address, FundState, INITIAL_NAV};
use crate::utils::validation::{MAX_LIQUIDITY_RATIO, MAX_MANAGEMENT_FEE_BPS, MIN_LIQUIDITY_RATIO};

verus! {

/// Sets up the fund record at time `now`: records the authority, mints and
/// vault, the fee (at most 1%) and the cash target (10% to 50%), and starts
/// the NAV at $1.00 with empty totals.
pub fn initialize_fund(
    admin_authority: Address,
    fund_token_mint: Address,
    usdc_mint: Address,
    usdc_vault: Address,
    management_fee_bps: u16,
    target_liquidity_ratio: u8,
    now: i64,
    bump: u8,
) -> (r: Result<FundState, ErrorCode>)
    ensures
        management_fee_bps > MAX_MANAGEMENT_FEE_BPS ==> r == Err::<FundState, ErrorCode>(ErrorCode::FeeTooHigh),
        management_fee_bps <= MAX_MANAGEMENT_FEE_BPS && (target_liquidity_ratio < MIN_LIQUIDITY_RATIO
            || target_liquidity_ratio > MAX_LIQUIDITY_RATIO) ==> r == Err::<FundState, ErrorCode>(
            ErrorCode::InvalidLiquidityRatio,
        ),
        r is Ok <==> management_fee_bps <= MAX_MANAGEMENT_FEE_BPS && MIN_LIQUIDITY_RATIO
            <= target_liquidity_ratio <= MAX_LIQUIDITY_RATIO,
        r matches Ok(f) ==> {
            &&& f.admin_authority == admin_authority
            &&& f.fund_token_mint == fund_token_mint
            &&& f.usdc_mint == usdc_mint
            &&& f.usdc_vault == usdc_vault
            &&& is_unset_address(f.treasury_vault)
            &&& f.total_assets == 0
            &&& f.total_shares == 0
            &&& f.nav_per_share == INITIAL_NAV
            &&& f.last_nav_update == now
            &&& f.cash_reserves == 0
            &&& f.fixed_income_value == 0
            &&& f.management_fee_bps == management_fee_bps
            &&& f.target_liquidity_ratio == target_liquidity_ratio
            &&& !f.is_paused
            &&& f.inception_date == now
            &&& f.total_yield_distributed == 0
            &&& f.total_depositors == 0
            &&& f.bump == bump
        },
{
    if management_fee_bps > MAX_MANAGEMENT_FEE_BPS {
        return Err(ErrorCode::FeeTooHigh);
    }
    if target_liquidity_ratio < MIN_LIQUIDITY_RATIO || target_liquidity_ratio > MAX_LIQUIDITY_RATIO {
        return Err(ErrorCode::InvalidLiquidityRatio);
    }
    let mut fund_state = FundState::default();
    fund_state.admin_authority = admin_authority;
    fund_state.fund_token_mint = fund_token_mint;
    fund_state.usdc_mint = usdc_mint;
    fund_state.usdc_vault = usdc_vault;
    fund_state.management_fee_bps = management_fee_bps;
    fund_state.target_liquidity_ratio = target_liquidity_ratio;
    fund_state.inception_date = now;
    fund_state.last_nav_update = now;
    fund_state.nav_per_share = INITIAL_NAV;
    fund_state.bump = bump;
    Ok(fund_state)
}

} // verus!
