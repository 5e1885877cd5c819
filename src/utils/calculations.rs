//! Fixed-point arithmetic of the fund: amounts in the deposit asset carry 6
//! decimals; fund tokens, NAV and asset values carry 8. Products are taken at
//! 128 bits and every division rounds down.
use vstd::prelude::*;

use crate::error::ErrorCode;
use vstd::arithmetic::div_mod::{lemma_div_denominator, lemma_fundamental_div_mod, lemma_mod_pos_bound};

verus! {

/// Fractional digits of a fund token amount.
pub const FUND_TOKEN_DECIMALS: u8 = 8;

/// Fractional digits of a deposit-asset (USDC) amount.
pub const USDC_DECIMALS: u8 = 6;

/// Fractional digits of a NAV figure.
pub const NAV_DECIMALS: u8 = 8;

/// One whole unit at 8 fractional digits.
pub const NAV_SCALE: u64 = 100_000_000;

/// Factor that turns a 6-decimal amount into an 8-decimal one.
pub const USDC_TO_FUND_SCALE: u64 = 100;

/// Lowest NAV per share the fund accepts ($0.95).
pub const MIN_NAV: u64 = 95_000_000;

/// Highest NAV per share the fund accepts ($1.05).
pub const MAX_NAV: u64 = 105_000_000;

/// Basis points in one whole.
pub const BPS_DENOMINATOR: u64 = 10_000;

/// Days over which an annual rate is spread.
pub const DAYS_PER_YEAR: u64 = 365;

/// Ceiling on the annual management fee used for daily accrual (5%).
pub const MAX_ACCRUAL_FEE_BPS: u16 = 500;

/// Ceiling on a reported APY (50%).
pub const MAX_APY_BPS: u32 = 5000;

/// Smallest deposit that meets the minimum investment ($10).
pub const MIN_INVESTMENT: u64 = 10_000_000;

/// Largest single deposit ($1,000,000).
pub const MAX_DEPOSIT: u64 = 1_000_000_000_000;

/// Shares minted for a deposit: the amount raised to 8 decimals, divided by
/// the NAV expressed on the same base, rounded down.
pub open spec fn shares_for_deposit(amount: int, nav: int) -> int {
    amount * 100 * 100_000_000 / nav
}

/// Outcome of pricing a deposit of `amount` (6 decimals) at `nav` (8 decimals).
pub open spec fn fund_tokens_result(amount: u64, nav: u64) -> Result<u64, ErrorCode> {
    if nav == 0 {
        Err(ErrorCode::InvalidNAV)
    } else if amount == 0 {
        Err(ErrorCode::InvalidAmount)
    } else if shares_for_deposit(amount as int, nav as int) > u64::MAX {
        Err(ErrorCode::MathOverflow)
    } else {
        Ok(shares_for_deposit(amount as int, nav as int) as u64)
    }
}

/// Fund tokens to mint for a deposit of `deposit_amount` (6 decimals) at
/// `nav_per_share` (8 decimals).
pub fn calculate_fund_tokens(deposit_amount: u64, nav_per_share: u64) -> (r: Result<u64, ErrorCode>)
    ensures
        r == fund_tokens_result(deposit_amount, nav_per_share),
{
    if nav_per_share == 0 {
        return Err(ErrorCode::InvalidNAV);
    }
    if deposit_amount == 0 {
        return Err(ErrorCode::InvalidAmount);
    }
    // Raise to 8 decimals (x 100), then to the NAV base (x 10^8).
    let numerator: u128 = (deposit_amount as u128) * 10_000_000_000u128;
    let fund_tokens: u128 = numerator / (nav_per_share as u128);
    if fund_tokens > u64::MAX as u128 {
        return Err(ErrorCode::MathOverflow);
    }
    Ok(fund_tokens as u64)
}

/// A 6-decimal amount written with 8 decimals.
pub open spec fn to_fund_precision(amount: int) -> int {
    amount * 100
}

/// An 8-decimal value written with 6 decimals, the remainder dropped.
pub open spec fn to_usdc_precision(value: int) -> int {
    value / 100
}

/// Value (8 decimals) of `shares` at `nav`, rounded down.
pub open spec fn share_value(shares: int, nav: int) -> int {
    shares * nav / 100_000_000
}

/// Deposit-asset amount (6 decimals) paid out for `shares` at `nav`: the
/// 8-decimal value of the shares, rounded down, then rounded down to 6 decimals.
pub open spec fn usdc_for_shares(shares: int, nav: int) -> int {
    to_usdc_precision(share_value(shares, nav))
}

/// Value (8 decimals) of `fund_tokens` at `nav_per_share`, rounded down;
/// fails when it does not fit in 64 bits.
pub fn calculate_share_value(fund_tokens: u64, nav_per_share: u64) -> (r: Result<u64, ErrorCode>)
    ensures
        r == (if share_value(fund_tokens as int, nav_per_share as int) > u64::MAX {
            Err(ErrorCode::MathOverflow)
        } else {
            Ok(share_value(fund_tokens as int, nav_per_share as int) as u64)
        }),
{
    proof {
        assert((fund_tokens as int) * (nav_per_share as int) <= (u64::MAX as int) * (u64::MAX as int))
            by (nonlinear_arith);
    }
    let value: u128 = (fund_tokens as u128) * (nav_per_share as u128) / (NAV_SCALE as u128);
    if value > u64::MAX as u128 {
        return Err(ErrorCode::MathOverflow);
    }
    Ok(value as u64)
}

/// NAV per share implied by the totals, rounded down.
pub open spec fn nav_from_totals(total_assets: int, total_shares: int) -> int {
    total_assets * 100_000_000 / total_shares
}

/// Whether `nav` lies within the fund's NAV bounds.
pub open spec fn nav_in_bounds(nav: int) -> bool {
    MIN_NAV <= nav <= MAX_NAV
}

/// Daily share of an annual basis-point rate on `value`, each division rounded down.
pub open spec fn daily_accrual(value: int, annual_bps: int) -> int {
    value * annual_bps / 10_000 / 365
}

/// Sum of a sequence of amounts.
pub open spec fn seq_sum(s: Seq<u64>) -> int
    decreases s.len(),
{
    if s.len() == 0 {
        0
    } else {
        seq_sum(s.drop_last()) + s.last()
    }
}

/// Converts a 6-decimal amount to 8 decimals, failing when the result does
/// not fit in 64 bits.
pub fn usdc_to_fund_precision(amount: u64) -> (r: Result<u64, ErrorCode>)
    ensures
        r == (if to_fund_precision(amount as int) > u64::MAX {
            Err(ErrorCode::MathOverflow)
        } else {
            Ok(to_fund_precision(amount as int) as u64)
        }),
{
    let value: u128 = (amount as u128) * 100u128;
    if value > u64::MAX as u128 {
        return Err(ErrorCode::MathOverflow);
    }
    Ok(value as u64)
}

/// Converts an 8-decimal value to 6 decimals, truncating the remainder.
pub fn fund_to_usdc_precision(value: u64) -> (r: u64)
    ensures
        r == to_usdc_precision(value as int),
{
    value / USDC_TO_FUND_SCALE
}

/// Outcome of redeeming `fund_tokens` at `nav`.
pub open spec fn withdrawal_amount_result(fund_tokens: u64, nav: u64) -> Result<u64, ErrorCode> {
    if fund_tokens == 0 {
        Err(ErrorCode::InvalidAmount)
    } else if nav == 0 {
        Err(ErrorCode::InvalidNAV)
    } else if usdc_for_shares(fund_tokens as int, nav as int) > u64::MAX {
        Err(ErrorCode::MathOverflow)
    } else {
        Ok(usdc_for_shares(fund_tokens as int, nav as int) as u64)
    }
}

/// Deposit-asset amount (6 decimals) returned for `fund_tokens` (8 decimals)
/// at `nav_per_share` (8 decimals).
pub fn calculate_withdrawal_amount(fund_tokens: u64, nav_per_share: u64) -> (r: Result<u64, ErrorCode>)
    ensures
        r == withdrawal_amount_result(fund_tokens, nav_per_share),
{
    if fund_tokens == 0 {
        return Err(ErrorCode::InvalidAmount);
    }
    if nav_per_share == 0 {
        return Err(ErrorCode::InvalidNAV);
    }
    proof {
        assert((fund_tokens as int) * (nav_per_share as int) <= (u64::MAX as int) * (u64::MAX as int))
            by (nonlinear_arith);
    }
    let value_8_decimals: u128 = (fund_tokens as u128) * (nav_per_share as u128) / (NAV_SCALE as u128);
    let usdc_amount: u128 = value_8_decimals / (USDC_TO_FUND_SCALE as u128);
    if usdc_amount > u64::MAX as u128 {
        return Err(ErrorCode::MathOverflow);
    }
    Ok(usdc_amount as u64)
}

/// Outcome of deriving the NAV per share from the totals.
pub open spec fn nav_result(total_assets: u64, total_shares: u64) -> Result<u64, ErrorCode> {
    if total_shares == 0 {
        Err(ErrorCode::NoSharesOutstanding)
    } else if nav_from_totals(total_assets as int, total_shares as int) < MIN_NAV {
        Err(ErrorCode::NAVTooLow)
    } else if nav_from_totals(total_assets as int, total_shares as int) > MAX_NAV {
        Err(ErrorCode::NAVTooHigh)
    } else {
        Ok(nav_from_totals(total_assets as int, total_shares as int) as u64)
    }
}

/// NAV per share (8 decimals) from total assets and total shares, rejected
/// when it falls outside the fund's bounds.
pub fn calculate_nav_per_share(total_assets: u64, total_shares: u64) -> (r: Result<u64, ErrorCode>)
    ensures
        r == nav_result(total_assets, total_shares),
        r is Ok ==> nav_in_bounds(r->Ok_0 as int),
{
    if total_shares == 0 {
        return Err(ErrorCode::NoSharesOutstanding);
    }
    let nav: u128 = (total_assets as u128) * 100_000_000u128 / (total_shares as u128);
    if nav < MIN_NAV as u128 {
        return Err(ErrorCode::NAVTooLow);
    }
    if nav > MAX_NAV as u128 {
        return Err(ErrorCode::NAVTooHigh);
    }
    Ok(nav as u64)
}

/// Outcome of the daily management fee computation.
pub open spec fn daily_fee_result(total_assets: u64, annual_fee_bps: u16) -> Result<u64, ErrorCode> {
    if total_assets == 0 {
        Err(ErrorCode::InvalidAmount)
    } else if annual_fee_bps > MAX_ACCRUAL_FEE_BPS {
        Err(ErrorCode::FeeTooHigh)
    } else {
        Ok(daily_accrual(total_assets as int, annual_fee_bps as int) as u64)
    }
}

/// Daily management fee on `total_assets` at an annual rate of
/// `annual_fee_bps`, rounded down.
pub fn calculate_daily_management_fee(total_assets: u64, annual_fee_bps: u16) -> (r: Result<u64, ErrorCode>)
    ensures
        r == daily_fee_result(total_assets, annual_fee_bps),
        r is Ok ==> r->Ok_0 <= total_assets,
{
    if total_assets == 0 {
        return Err(ErrorCode::InvalidAmount);
    }
    if annual_fee_bps > MAX_ACCRUAL_FEE_BPS {
        return Err(ErrorCode::FeeTooHigh);
    }
    proof {
        assert((total_assets as int) * (annual_fee_bps as int) <= (total_assets as int) * 10_000)
            by (nonlinear_arith)
            requires annual_fee_bps <= 500;
    }
    let annual_fee: u128 = (total_assets as u128) * (annual_fee_bps as u128) / (BPS_DENOMINATOR as u128);
    let daily_fee: u128 = annual_fee / (DAYS_PER_YEAR as u128);
    Ok(daily_fee as u64)
}

/// APY in basis points from a year of daily yields, capped at 50%.
pub open spec fn apy_bps(daily_yields: Seq<u64>, total_assets: int) -> int {
    if total_assets == 0 {
        0
    } else if seq_sum(daily_yields) * 10_000 / total_assets > MAX_APY_BPS {
        MAX_APY_BPS as int
    } else {
        seq_sum(daily_yields) * 10_000 / total_assets
    }
}

/// APY in basis points (450 = 4.50%) earned over the past year of daily
/// yields on `total_assets`; 0 for an empty fund, at most 5000.
pub fn calculate_apy(daily_yields: &[u64; 365], total_assets: u64) -> (r: u32)
    ensures
        r == apy_bps(daily_yields@, total_assets as int),
{
    if total_assets == 0 {
        return 0;
    }
    let mut total_yield: u128 = 0;
    let mut i: usize = 0;
    while i < 365
        invariant
            daily_yields@.len() == 365,
            i <= 365,
            total_yield == seq_sum(daily_yields@.take(i as int)),
            total_yield <= i * (u64::MAX as int),
        decreases 365 - i,
    {
        proof {
            assert(daily_yields@.take(i as int + 1).drop_last() == daily_yields@.take(i as int));
        }
        total_yield = total_yield + daily_yields[i] as u128;
        i = i + 1;
    }
    proof {
        assert(daily_yields@.take(365) == daily_yields@);
    }
    let apy: u128 = total_yield * 10_000u128 / (total_assets as u128);
    if apy > MAX_APY_BPS as u128 {
        MAX_APY_BPS
    } else {
        apy as u32
    }
}

/// Combined daily yield of three asset classes, each at its own annual rate.
pub open spec fn daily_yield_total(
    treasury_value: u64,
    corporate_bond_value: u64,
    other_assets_value: u64,
    treasury_yield_bps: u32,
    corporate_yield_bps: u32,
    other_yield_bps: u32,
) -> int {
    daily_accrual(treasury_value as int, treasury_yield_bps as int)
        + daily_accrual(corporate_bond_value as int, corporate_yield_bps as int)
        + daily_accrual(other_assets_value as int, other_yield_bps as int)
}

/// Yield for one day across treasury, corporate and other holdings.
pub fn calculate_daily_yield(
    treasury_value: u64,
    corporate_bond_value: u64,
    other_assets_value: u64,
    treasury_yield_bps: u32,
    corporate_yield_bps: u32,
    other_yield_bps: u32,
) -> (r: Result<u64, ErrorCode>)
    ensures
        ({
            let total = daily_yield_total(
                treasury_value,
                corporate_bond_value,
                other_assets_value,
                treasury_yield_bps,
                corporate_yield_bps,
                other_yield_bps,
            );
            r == (if total > u64::MAX {
                Err(ErrorCode::MathOverflow)
            } else {
                Ok(total as u64)
            })
        }),
{
    let treasury_daily = class_daily_yield(treasury_value, treasury_yield_bps);
    let corporate_daily = class_daily_yield(corporate_bond_value, corporate_yield_bps);
    let other_daily = class_daily_yield(other_assets_value, other_yield_bps);
    let total_daily_yield: u128 = treasury_daily + corporate_daily + other_daily;
    if total_daily_yield > u64::MAX as u128 {
        return Err(ErrorCode::MathOverflow);
    }
    Ok(total_daily_yield as u64)
}

fn class_daily_yield(value: u64, yield_bps: u32) -> (r: u128)
    ensures
        r == daily_accrual(value as int, yield_bps as int),
        r <= (u64::MAX as int) * (u32::MAX as int),
{
    proof {
        assert((value as int) * (yield_bps as int) <= (u64::MAX as int) * (u32::MAX as int))
            by (nonlinear_arith);
    }
    (value as u128) * (yield_bps as u128) / (BPS_DENOMINATOR as u128) / (DAYS_PER_YEAR as u128)
}

/// Total assets after applying a signed daily profit or loss.
pub open spec fn assets_after_pnl(current_total_assets: u64, net_daily_pnl: i64) -> Result<u64, ErrorCode> {
    if net_daily_pnl >= 0 {
        if current_total_assets + net_daily_pnl > u64::MAX {
            Err(ErrorCode::MathOverflow)
        } else {
            Ok((current_total_assets + net_daily_pnl) as u64)
        }
    } else if -net_daily_pnl > current_total_assets {
        Err(ErrorCode::InsufficientFunds)
    } else {
        Ok((current_total_assets + net_daily_pnl) as u64)
    }
}

/// Outcome of marking the fund with a daily profit or loss: the new total
/// assets and the NAV they imply.
pub open spec fn pnl_update_result(current_total_assets: u64, total_shares: u64, net_daily_pnl: i64) -> Result<
    (u64, u64),
    ErrorCode,
> {
    match assets_after_pnl(current_total_assets, net_daily_pnl) {
        Err(e) => Err(e),
        Ok(assets) => match nav_result(assets, total_shares) {
            Err(e) => Err(e),
            Ok(nav) => Ok((assets, nav)),
        },
    }
}

/// Applies a signed daily profit or loss to the total assets and returns the
/// new total assets with the NAV per share they imply.
pub fn update_nav_with_pnl(current_total_assets: u64, total_shares: u64, net_daily_pnl: i64) -> (r: Result<
    (u64, u64),
    ErrorCode,
>)
    ensures
        r == pnl_update_result(current_total_assets, total_shares, net_daily_pnl),
{
    let new_total_assets = match apply_pnl(current_total_assets, net_daily_pnl) {
        Ok(v) => v,
        Err(e) => return Err(e),
    };
    let new_nav = match calculate_nav_per_share(new_total_assets, total_shares) {
        Ok(v) => v,
        Err(e) => return Err(e),
    };
    Ok((new_total_assets, new_nav))
}

/// Adds a profit to, or takes a loss from, a total; a loss larger than the
/// total is refused.
pub fn apply_pnl(current_total_assets: u64, net_daily_pnl: i64) -> (r: Result<u64, ErrorCode>)
    ensures
        r == assets_after_pnl(current_total_assets, net_daily_pnl),
{
    if net_daily_pnl >= 0 {
        current_total_assets.checked_add(net_daily_pnl as u64).ok_or(ErrorCode::MathOverflow)
    } else {
        let loss: u64 = (-(net_daily_pnl as i128)) as u64;
        if loss > current_total_assets {
            return Err(ErrorCode::InsufficientFunds);
        }
        Ok(current_total_assets - loss)
    }
}

/// Outcome of splitting `total_assets` by three target percentages.
pub open spec fn allocation_result(
    total_assets: u64,
    target_treasury_pct: u8,
    target_corporate_pct: u8,
    target_other_pct: u8,
) -> Result<(u64, u64, u64), ErrorCode> {
    if target_treasury_pct + target_corporate_pct + target_other_pct != 100 {
        Err(ErrorCode::InvalidAllocation)
    } else {
        Ok(
            (
                (total_assets * target_treasury_pct / 100) as u64,
                (total_assets * target_corporate_pct / 100) as u64,
                (total_assets * target_other_pct / 100) as u64,
            ),
        )
    }
}

/// Splits `total_assets` into treasury, corporate and other allocations by
/// target percentages that must add up to 100.
pub fn calculate_asset_allocation(
    total_assets: u64,
    target_treasury_pct: u8,
    target_corporate_pct: u8,
    target_other_pct: u8,
) -> (r: Result<(u64, u64, u64), ErrorCode>)
    ensures
        r == allocation_result(total_assets, target_treasury_pct, target_corporate_pct, target_other_pct),
{
    let pct_sum: u16 = target_treasury_pct as u16 + target_corporate_pct as u16 + target_other_pct as u16;
    if pct_sum != 100 {
        return Err(ErrorCode::InvalidAllocation);
    }
    let treasury_allocation = percent_of(total_assets, target_treasury_pct);
    let corporate_allocation = percent_of(total_assets, target_corporate_pct);
    let other_allocation = percent_of(total_assets, target_other_pct);
    Ok((treasury_allocation, corporate_allocation, other_allocation))
}

fn percent_of(total: u64, pct: u8) -> (r: u64)
    requires
        pct <= 100,
    ensures
        r == total * pct / 100,
{
    proof {
        assert((total as int) * (pct as int) <= (total as int) * 100) by (nonlinear_arith)
            requires pct <= 100;
    }
    ((total as u128) * (pct as u128) / 100) as u64
}

/// Cash as a whole percentage of total assets, at most 100; 0 for an empty fund.
pub open spec fn liquidity_ratio(cash_reserves: int, total_assets: int) -> int {
    if total_assets == 0 {
        0
    } else if cash_reserves * 100 / total_assets > 100 {
        100
    } else {
        cash_reserves * 100 / total_assets
    }
}

/// Liquidity ratio (cash over total assets) as a percentage from 0 to 100.
pub fn calculate_liquidity_ratio(cash_reserves: u64, total_assets: u64) -> (r: u32)
    ensures
        r == liquidity_ratio(cash_reserves as int, total_assets as int),
{
    if total_assets == 0 {
        return 0;
    }
    let ratio: u128 = (cash_reserves as u128) * 100 / (total_assets as u128);
    if ratio > 100 {
        100
    } else {
        ratio as u32
    }
}

/// Outcome of checking a deposit against the minimum investment and the
/// largest allowed deposit.
pub open spec fn deposit_amount_check(amount: u64) -> Result<(), ErrorCode> {
    if amount < MIN_INVESTMENT {
        Err(ErrorCode::DepositTooSmall)
    } else if amount > MAX_DEPOSIT {
        Err(ErrorCode::DepositTooLarge)
    } else {
        Ok(())
    }
}

/// Checks a deposit (6 decimals) against the $10 minimum and $1,000,000 maximum.
pub fn validate_deposit_amount(amount_usdc: u64) -> (r: Result<(), ErrorCode>)
    ensures
        r == deposit_amount_check(amount_usdc),
{
    if amount_usdc < MIN_INVESTMENT {
        return Err(ErrorCode::DepositTooSmall);
    }
    if amount_usdc > MAX_DEPOSIT {
        return Err(ErrorCode::DepositTooLarge);
    }
    Ok(())
}

/// Checks that a redemption is for a positive number of tokens the holder has.
pub fn validate_withdrawal_amount(fund_tokens: u64, user_balance: u64) -> (r: Result<(), ErrorCode>)
    ensures
        r == (if fund_tokens == 0 {
            Err(ErrorCode::WithdrawAmountZero)
        } else if fund_tokens > user_balance {
            Err(ErrorCode::InsufficientFundTokens)
        } else {
            Ok(())
        }),
{
    if fund_tokens == 0 {
        return Err(ErrorCode::WithdrawAmountZero);
    }
    if fund_tokens > user_balance {
        return Err(ErrorCode::InsufficientFundTokens);
    }
    Ok(())
}

/// A deposit followed at once by the redemption of every token it minted, at
/// the same NAV, gives back the amount deposited less at most one unit of
/// the deposit asset lost to rounding down.
pub proof fn lemma_deposit_withdraw_round_trip(amount: u64, nav: u64)
    requires
        0 < amount <= MAX_DEPOSIT,
        nav_in_bounds(nav as int),
    ensures
        fund_tokens_result(amount, nav) is Ok,
        withdrawal_amount_result(fund_tokens_result(amount, nav)->Ok_0, nav) is Ok,
        amount - 1 <= withdrawal_amount_result(fund_tokens_result(amount, nav)->Ok_0, nav)->Ok_0 <= amount,
{
    let x = amount * 10_000_000_000;
    let n = nav as int;
    let m = x / n;
    lemma_fundamental_div_mod(x, n);
    lemma_mod_pos_bound(x, n);
    assert(n * m <= x < n * m + n);
    assert(m <= 200_000_000_000_000) by (nonlinear_arith)
        requires
            n * m <= x,
            x <= 10_000_000_000_000_000_000_000,
            n >= 95_000_000,
    ;
    assert(m >= 1) by (nonlinear_arith)
        requires
            x < n * m + n,
            x >= 10_000_000_000,
            0 < n <= 105_000_000,
    ;
    assert(shares_for_deposit(amount as int, n) == m);
    let y = m * n;
    assert(y == n * m) by (nonlinear_arith)
        requires
            y == m * n,
    ;
    lemma_div_denominator(y, 100_000_000, 100);
    assert(usdc_for_shares(m, n) == y / 10_000_000_000);
    assert(y / 10_000_000_000 <= amount);
    assert(y / 10_000_000_000 >= amount - 1);
}

} // verus!
