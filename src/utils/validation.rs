//! Parameter, portfolio and consistency rules.
use vstd::prelude::*;

use crate::error::ErrorCode;
use crate::state::{AssetValuation, FixedIncomeAssetType};
use crate::utils::calculations::{deposit_amount_check, nav_in_bounds, MAX_NAV, MIN_NAV};

verus! {

/// Seconds in a day.
pub const SECONDS_PER_DAY: i64 = 86_400;

/// Lowest cash target, in percent.
pub const MIN_LIQUIDITY_RATIO: u8 = 10;

/// Highest cash target, in percent.
pub const MAX_LIQUIDITY_RATIO: u8 = 50;

/// Highest annual management fee a fund may be set up with (1%).
pub const MAX_MANAGEMENT_FEE_BPS: u16 = 100;

/// Lowest acceptable credit rating (BBB-); 1 is AAA.
pub const MIN_INVESTMENT_GRADE: u8 = 7;

/// Longest acceptable term, in days (10 years).
pub const MAX_TERM_DAYS: i64 = 3650;

/// Smallest face value of a holding ($1,000, 8 decimals).
pub const MIN_FACE_VALUE: u64 = 100_000_000_000;

/// Largest face value of a holding ($100M, 8 decimals).
pub const MAX_FACE_VALUE: u64 = 10_000_000_000_000_000;

/// Largest single investment, in basis points of the portfolio after it (10%).
pub const MAX_SINGLE_INVESTMENT_BPS: u64 = 1000;

/// Largest exposure to one non-government issuer, in basis points (5%).
pub const MAX_ISSUER_BPS: u64 = 500;

/// Checks a deposit (6 decimals) against the minimum investment and the
/// largest allowed deposit.
pub fn validate_deposit_amount(amount: u64) -> (r: Result<(), ErrorCode>)
    ensures
        r == deposit_amount_check(amount),
{
    crate::utils::calculations::validate_deposit_amount(amount)
}

/// Checks that a NAV lies within $0.95 and $1.05.
pub fn validate_nav_parameters(nav: u64) -> (r: Result<(), ErrorCode>)
    ensures
        r == (if nav < MIN_NAV {
            Err(ErrorCode::NAVTooLow)
        } else if nav > MAX_NAV {
            Err(ErrorCode::NAVTooHigh)
        } else {
            Ok(())
        }),
        r is Ok <==> nav_in_bounds(nav as int),
{
    if nav < MIN_NAV {
        return Err(ErrorCode::NAVTooLow);
    }
    if nav > MAX_NAV {
        return Err(ErrorCode::NAVTooHigh);
    }
    Ok(())
}

/// Checks a cash target (percent) against the 10% to 50% band.
pub fn validate_liquidity_ratio(ratio: u8) -> (r: Result<(), ErrorCode>)
    ensures
        r == (if ratio < MIN_LIQUIDITY_RATIO {
            Err(ErrorCode::LiquidityTooLow)
        } else if ratio > MAX_LIQUIDITY_RATIO {
            Err(ErrorCode::LiquidityTooHigh)
        } else {
            Ok(())
        }),
{
    if ratio < MIN_LIQUIDITY_RATIO {
        return Err(ErrorCode::LiquidityTooLow);
    }
    if ratio > MAX_LIQUIDITY_RATIO {
        return Err(ErrorCode::LiquidityTooHigh);
    }
    Ok(())
}

/// Whether at least `min_interval` seconds separate `last_update` from `now`.
pub open spec fn interval_elapsed(last_update: i64, min_interval: i64, now: i64) -> bool {
    now - last_update >= min_interval
}

/// Refuses an operation that comes less than `min_interval` seconds after
/// `last_update`, judged at time `now`.
pub fn validate_timelock(last_update: i64, min_interval: i64, now: i64) -> (r: Result<(), ErrorCode>)
    ensures
        r == (if interval_elapsed(last_update, min_interval, now) {
            Ok(())
        } else {
            Err(ErrorCode::OperationTooFrequent)
        }),
{
    if (now as i128) - (last_update as i128) >= min_interval as i128 {
        Ok(())
    } else {
        Err(ErrorCode::OperationTooFrequent)
    }
}

/// Whole days from `now` to `maturity_date`, rounded down.
pub open spec fn days_between(now: i64, maturity_date: i64) -> int {
    (maturity_date - now) / (SECONDS_PER_DAY as int)
}

/// Rules particular to each class of instrument.
pub open spec fn class_rule(asset_type: FixedIncomeAssetType, credit_rating: u8, days: int) -> Result<(), ErrorCode> {
    match asset_type {
        FixedIncomeAssetType::TreasuryBill => if days > 365 {
            Err(ErrorCode::InvalidFixedIncomeAssetData)
        } else if credit_rating != 1 {
            Err(ErrorCode::InvalidCreditRating)
        } else {
            Ok(())
        },
        FixedIncomeAssetType::TreasuryNote | FixedIncomeAssetType::TreasuryBond => if credit_rating != 1 {
            Err(ErrorCode::InvalidCreditRating)
        } else {
            Ok(())
        },
        FixedIncomeAssetType::CorporateBond => if credit_rating > 5 {
            Err(ErrorCode::InvalidCreditRating)
        } else {
            Ok(())
        },
        FixedIncomeAssetType::CommercialPaper => if days > 270 {
            Err(ErrorCode::InvalidFixedIncomeAssetData)
        } else if credit_rating > 4 {
            Err(ErrorCode::InvalidCreditRating)
        } else {
            Ok(())
        },
        FixedIncomeAssetType::CertificateOfDeposit => if credit_rating > 3 {
            Err(ErrorCode::InvalidCreditRating)
        } else {
            Ok(())
        },
        _ => if credit_rating > MIN_INVESTMENT_GRADE {
            Err(ErrorCode::InvalidCreditRating)
        } else {
            Ok(())
        },
    }
}

/// Outcome of checking a fixed income instrument at time `now`: the first
/// rule it breaks, in the order the rules are listed.
pub open spec fn fixed_income_asset_check(
    asset_type: FixedIncomeAssetType,
    credit_rating: u8,
    maturity_date: i64,
    yield_rate: u32,
    face_value: u64,
    now: i64,
) -> Result<(), ErrorCode> {
    let days = days_between(now, maturity_date);
    if credit_rating < 1 || credit_rating > 10 {
        Err(ErrorCode::InvalidCreditRating)
    } else if credit_rating > MIN_INVESTMENT_GRADE {
        Err(ErrorCode::InvalidCreditRating)
    } else if maturity_date <= now {
        Err(ErrorCode::AssetAlreadyMatured)
    } else if days < 1 || days > MAX_TERM_DAYS {
        Err(ErrorCode::InvalidFixedIncomeAssetData)
    } else if yield_rate < 10 || yield_rate > 20000 {
        Err(ErrorCode::InvalidFixedIncomeAssetData)
    } else if face_value < MIN_FACE_VALUE || face_value > MAX_FACE_VALUE {
        Err(ErrorCode::InvalidFixedIncomeAssetData)
    } else {
        class_rule(asset_type, credit_rating, days)
    }
}

/// Checks a fixed income instrument at time `now`: an investment-grade
/// rating, a term from one day to ten years, a yield of 10 to 20,000 basis
/// points, a face value from $1,000 to $100M, and the rating and term limits
/// of its class.
pub fn validate_fixed_income_asset(
    asset_type: FixedIncomeAssetType,
    credit_rating: u8,
    maturity_date: i64,
    yield_rate: u32,
    face_value: u64,
    now: i64,
) -> (r: Result<(), ErrorCode>)
    ensures
        r == fixed_income_asset_check(asset_type, credit_rating, maturity_date, yield_rate, face_value, now),
{
    if credit_rating < 1 || credit_rating > 10 {
        return Err(ErrorCode::InvalidCreditRating);
    }
    if credit_rating > MIN_INVESTMENT_GRADE {
        return Err(ErrorCode::InvalidCreditRating);
    }
    if maturity_date <= now {
        return Err(ErrorCode::AssetAlreadyMatured);
    }
    let days_to_maturity: i128 = ((maturity_date as i128) - (now as i128)) / (SECONDS_PER_DAY as i128);
    if days_to_maturity < 1 || days_to_maturity > MAX_TERM_DAYS as i128 {
        return Err(ErrorCode::InvalidFixedIncomeAssetData);
    }
    if yield_rate < 10 || yield_rate > 20000 {
        return Err(ErrorCode::InvalidFixedIncomeAssetData);
    }
    if face_value < MIN_FACE_VALUE || face_value > MAX_FACE_VALUE {
        return Err(ErrorCode::InvalidFixedIncomeAssetData);
    }
    match asset_type {
        FixedIncomeAssetType::TreasuryBill => {
            if days_to_maturity > 365 {
                return Err(ErrorCode::InvalidFixedIncomeAssetData);
            }
            if credit_rating != 1 {
                return Err(ErrorCode::InvalidCreditRating);
            }
        },
        FixedIncomeAssetType::TreasuryNote | FixedIncomeAssetType::TreasuryBond => {
            if credit_rating != 1 {
                return Err(ErrorCode::InvalidCreditRating);
            }
        },
        FixedIncomeAssetType::CorporateBond => {
            if credit_rating > 5 {
                return Err(ErrorCode::InvalidCreditRating);
            }
        },
        FixedIncomeAssetType::CommercialPaper => {
            if days_to_maturity > 270 {
                return Err(ErrorCode::InvalidFixedIncomeAssetData);
            }
            if credit_rating > 4 {
                return Err(ErrorCode::InvalidCreditRating);
            }
        },
        FixedIncomeAssetType::CertificateOfDeposit => {
            if credit_rating > 3 {
                return Err(ErrorCode::InvalidCreditRating);
            }
        },
        _ => {
            if credit_rating > MIN_INVESTMENT_GRADE {
                return Err(ErrorCode::InvalidCreditRating);
            }
        },
    }
    Ok(())
}

/// Checks the annual management fee a fund is set up with (at most 1%).
pub fn validate_management_fee(fee_bps: u16) -> (r: Result<(), ErrorCode>)
    ensures
        r == (if fee_bps > MAX_MANAGEMENT_FEE_BPS {
            Err(ErrorCode::FeeTooHigh)
        } else {
            Ok(())
        }),
{
    if fee_bps > MAX_MANAGEMENT_FEE_BPS {
        return Err(ErrorCode::FeeTooHigh);
    }
    Ok(())
}

/// Whether the class is a government (treasury) security.
pub open spec fn is_treasury(asset_type: FixedIncomeAssetType) -> bool {
    ||| asset_type == FixedIncomeAssetType::TreasuryBill
    ||| asset_type == FixedIncomeAssetType::TreasuryNote
    ||| asset_type == FixedIncomeAssetType::TreasuryBond
}

/// Tests whether the class is a government (treasury) security.
pub fn is_treasury_security(asset_type: FixedIncomeAssetType) -> (r: bool)
    ensures
        r == is_treasury(asset_type),
{
    matches!(
        asset_type,
        FixedIncomeAssetType::TreasuryBill | FixedIncomeAssetType::TreasuryNote
            | FixedIncomeAssetType::TreasuryBond
    )
}

/// Ceiling on the share of the portfolio held in one class, in basis points.
pub open spec fn class_limit_bps(asset_type: FixedIncomeAssetType) -> u64 {
    if is_treasury(asset_type) {
        8000
    } else if asset_type == FixedIncomeAssetType::CorporateBond {
        4000
    } else if asset_type == FixedIncomeAssetType::CertificateOfDeposit {
        3000
    } else {
        2000
    }
}

/// Ceiling on the share of the portfolio held in one class, in basis points:
/// 80% for treasuries, 40% for corporate bonds, 30% for CDs, 20% otherwise.
pub fn asset_class_limit_bps(asset_type: FixedIncomeAssetType) -> (r: u64)
    ensures
        r == class_limit_bps(asset_type),
{
    match asset_type {
        FixedIncomeAssetType::TreasuryBill
        | FixedIncomeAssetType::TreasuryNote
        | FixedIncomeAssetType::TreasuryBond => 8000,
        FixedIncomeAssetType::CorporateBond => 4000,
        FixedIncomeAssetType::CertificateOfDeposit => 3000,
        _ => 2000,
    }
}

/// Share of `total` that `part` makes up, in basis points, rounded down.
pub open spec fn share_bps(part: int, total: int) -> int {
    part * 10_000 / total
}

/// Outcome of checking an investment against the single-investment and
/// single-issuer limits.
pub open spec fn investment_limits_check(
    investment_amount: u64,
    current_portfolio_value: u64,
    asset_type: FixedIncomeAssetType,
    same_issuer_total: u64,
) -> Result<(), ErrorCode> {
    let total_after = current_portfolio_value + investment_amount;
    if total_after == 0 {
        Err(ErrorCode::InvalidAmount)
    } else if share_bps(investment_amount as int, total_after) > MAX_SINGLE_INVESTMENT_BPS {
        Err(ErrorCode::InvestmentAmountExceedsLimit)
    } else if !is_treasury(asset_type) && share_bps(same_issuer_total + investment_amount, total_after)
        > MAX_ISSUER_BPS {
        Err(ErrorCode::PortfolioConcentrationExceeded)
    } else {
        Ok(())
    }
}

/// Checks an investment against the portfolio it joins: no single investment
/// above 10% of the portfolio after it, and, outside treasuries, no issuer
/// above 5%. An investment of nothing into an empty portfolio is refused.
pub fn validate_investment_limits(
    investment_amount: u64,
    current_portfolio_value: u64,
    asset_type: FixedIncomeAssetType,
    same_issuer_total: u64,
) -> (r: Result<(), ErrorCode>)
    ensures
        r == investment_limits_check(investment_amount, current_portfolio_value, asset_type, same_issuer_total),
{
    let total_after: u128 = current_portfolio_value as u128 + investment_amount as u128;
    if total_after == 0 {
        return Err(ErrorCode::InvalidAmount);
    }
    let investment_bps: u128 = (investment_amount as u128) * 10_000u128 / total_after;
    if investment_bps > MAX_SINGLE_INVESTMENT_BPS as u128 {
        return Err(ErrorCode::InvestmentAmountExceedsLimit);
    }
    if !is_treasury_security(asset_type) {
        let issuer_total_after: u128 = same_issuer_total as u128 + investment_amount as u128;
        let issuer_bps: u128 = issuer_total_after * 10_000u128 / total_after;
        if issuer_bps > MAX_ISSUER_BPS as u128 {
            return Err(ErrorCode::PortfolioConcentrationExceeded);
        }
    }
    Ok(())
}

/// Checks that a class, holding `class_total` before an investment of
/// `investment_amount`, stays under its ceiling in the portfolio after it.
pub fn validate_asset_class_limit(
    investment_amount: u64,
    current_portfolio_value: u64,
    asset_type: FixedIncomeAssetType,
    class_total: u64,
) -> (r: Result<(), ErrorCode>)
    ensures
        r == ({
            let total_after = current_portfolio_value + investment_amount;
            if total_after == 0 {
                Err(ErrorCode::InvalidAmount)
            } else if share_bps(class_total + investment_amount, total_after) > class_limit_bps(asset_type) {
                Err(ErrorCode::ConcentrationLimitExceeded)
            } else {
                Ok(())
            }
        }),
{
    let total_after: u128 = current_portfolio_value as u128 + investment_amount as u128;
    if total_after == 0 {
        return Err(ErrorCode::InvalidAmount);
    }
    let class_total_after: u128 = class_total as u128 + investment_amount as u128;
    let class_bps: u128 = class_total_after * 10_000u128 / total_after;
    if class_bps > asset_class_limit_bps(asset_type) as u128 {
        return Err(ErrorCode::ConcentrationLimitExceeded);
    }
    Ok(())
}

/// Checks a holder's balance covers `requested_tokens` and, when
/// `min_operation_interval` is positive, that enough time has passed since
/// `last_operation_time`.
pub fn validate_user_account_state(
    fund_tokens: u64,
    requested_tokens: u64,
    last_operation_time: i64,
    min_operation_interval: i64,
    now: i64,
) -> (r: Result<(), ErrorCode>)
    ensures
        r == (if fund_tokens < requested_tokens {
            Err(ErrorCode::InsufficientFundTokens)
        } else if min_operation_interval > 0 && !interval_elapsed(
            last_operation_time,
            min_operation_interval,
            now,
        ) {
            Err(ErrorCode::OperationTooFrequent)
        } else {
            Ok(())
        }),
{
    if fund_tokens < requested_tokens {
        return Err(ErrorCode::InsufficientFundTokens);
    }
    if min_operation_interval > 0 {
        validate_timelock(last_operation_time, min_operation_interval, now)?;
    }
    Ok(())
}

/// Whether an oracle mark is usable: a positive value, and accrued interest
/// of at most half of it.
pub open spec fn valuation_is_sound(v: AssetValuation) -> bool {
    v.current_value > 0 && v.accrued_interest <= v.current_value / 2
}

/// Checks every oracle mark: a positive value, and accrued interest of at
/// most half of it.
pub fn validate_oracle_data(asset_valuations: &[AssetValuation], max_price_deviation_bps: u32) -> (r: Result<
    (),
    ErrorCode,
>)
    ensures
        r == (if forall|i: int| 0 <= i < asset_valuations@.len() ==> valuation_is_sound(#[trigger] asset_valuations@[i]) {
            Ok(())
        } else {
            Err(ErrorCode::InvalidFixedIncomeAssetData)
        }),
{
    let mut i: usize = 0;
    while i < asset_valuations.len()
        invariant
            i <= asset_valuations@.len(),
            forall|j: int| 0 <= j < i ==> valuation_is_sound(#[trigger] asset_valuations@[j]),
        decreases asset_valuations@.len() - i,
    {
        let valuation = &asset_valuations[i];
        if valuation.current_value == 0 || valuation.accrued_interest > valuation.current_value / 2 {
            return Err(ErrorCode::InvalidFixedIncomeAssetData);
        }
        i = i + 1;
    }
    Ok(())
}

/// Absolute difference of two integers.
pub open spec fn abs_diff(a: int, b: int) -> int {
    if a >= b {
        a - b
    } else {
        b - a
    }
}

/// Whether total assets agree with cash (raised to 8 decimals) plus fixed
/// income, within 0.1% of the total assets.
pub open spec fn assets_reconcile(total_assets: u64, cash_reserves: u64, fixed_income_value: u64) -> bool {
    abs_diff(cash_reserves * 100 + fixed_income_value, total_assets as int) <= total_assets / 1000
}

/// Whether the NAV agrees with the NAV implied by the totals, within 0.01%
/// of the NAV; always so when no shares exist.
pub open spec fn nav_reconciles(total_assets: u64, total_shares: u64, nav_per_share: u64) -> bool {
    total_shares > 0 ==> abs_diff(
        total_assets * 100_000_000 / (total_shares as int),
        nav_per_share as int,
    ) <= nav_per_share / 10000
}

/// Checks the fund's totals against each other: assets against cash plus
/// fixed income, and the NAV against the NAV the totals imply.
pub fn validate_fund_state_consistency(
    total_assets: u64,
    total_shares: u64,
    nav_per_share: u64,
    cash_reserves: u64,
    fixed_income_value: u64,
) -> (r: Result<(), ErrorCode>)
    ensures
        r == (if assets_reconcile(total_assets, cash_reserves, fixed_income_value) && nav_reconciles(
            total_assets,
            total_shares,
            nav_per_share,
        ) {
            Ok(())
        } else {
            Err(ErrorCode::InconsistentFundState)
        }),
{
    let calculated_assets: u128 = (cash_reserves as u128) * 100u128 + (fixed_income_value as u128);
    let asset_difference: u128 = if calculated_assets > total_assets as u128 {
        calculated_assets - (total_assets as u128)
    } else {
        (total_assets as u128) - calculated_assets
    };
    let tolerance: u128 = (total_assets as u128) / 1000;
    if asset_difference > tolerance {
        return Err(ErrorCode::InconsistentFundState);
    }
    if total_shares > 0 {
        let calculated_nav: u128 = (total_assets as u128) * 100_000_000u128 / (total_shares as u128);
        let nav_difference: u128 = if calculated_nav > nav_per_share as u128 {
            calculated_nav - (nav_per_share as u128)
        } else {
            (nav_per_share as u128) - calculated_nav
        };
        let nav_tolerance: u128 = (nav_per_share as u128) / 10000;
        if nav_difference > nav_tolerance {
            return Err(ErrorCode::InconsistentFundState);
        }
    }
    Ok(())
}

} // verus!
