//! Moving cash into fixed income holdings.
use vstd::prelude::*;

use crate::error::ErrorCode;
use crate::state::FundState;
use crate::utils::calculations::to_fund_precision;

verus! {

/// Highest yield accepted for a purchase, in basis points (20%).
pub const MAX_PURCHASE_YIELD_BPS: u16 = 2000;

/// One purchase order of a fixed income batch.
#[derive(Debug, Clone, Copy)]
pub struct AssetPurchase {
    /// Class code (1 = treasury bill, 2 = corporate bond, ...).
    pub asset_type: u8,
    /// Cash spent (6 decimals).
    pub amount: u64,
    /// Time of maturity.
    pub maturity_date: i64,
    /// Annual yield in basis points.
    pub yield_rate: u16,
}

/// The first rule a purchase order breaks at time `now`, if any.
pub open spec fn purchase_error(p: AssetPurchase, now: i64) -> Option<ErrorCode> {
    if p.amount == 0 {
        Some(ErrorCode::InvalidAmount)
    } else if p.maturity_date <= now {
        Some(ErrorCode::InvalidMaturityDate)
    } else if p.yield_rate > MAX_PURCHASE_YIELD_BPS {
        Some(ErrorCode::InvalidYieldRate)
    } else {
        None
    }
}

/// Cash a batch of orders spends, checked order by order: the first order
/// that breaks a rule, or whose amount pushes the sum past 64 bits, decides
/// the error.
pub open spec fn batch_total(orders: Seq<AssetPurchase>, now: i64) -> Result<u64, ErrorCode>
    decreases orders.len(),
{
    if orders.len() == 0 {
        Ok(0)
    } else {
        match batch_total(orders.drop_last(), now) {
            Err(e) => Err(e),
            Ok(t) => match purchase_error(orders.last(), now) {
                Some(e) => Err(e),
                None => if t + orders.last().amount > u64::MAX {
                    Err(ErrorCode::MathOverflow)
                } else {
                    Ok((t + orders.last().amount) as u64)
                },
            },
        }
    }
}

/// Once a prefix of the batch fails, every longer prefix fails the same way.
pub proof fn lemma_batch_error_persists(orders: Seq<AssetPurchase>, now: i64, i: int, j: int)
    requires
        0 <= i <= j <= orders.len(),
        batch_total(orders.take(i), now) is Err,
    ensures
        batch_total(orders.take(j), now) == batch_total(orders.take(i), now),
    decreases j - i,
{
    if j > i {
        lemma_batch_error_persists(orders, now, i, j - 1);
        assert(orders.take(j).drop_last() == orders.take(j - 1));
    }
}

/// Outcome of investing a batch at time `now`: cash moves into fixed income
/// (raised to 8 decimals) when every order is sound and the cash covers the
/// whole batch.
pub open spec fn invest_outcome(fund: FundState, orders: Seq<AssetPurchase>, now: i64) -> Result<
    (FundState, u64),
    ErrorCode,
> {
    match batch_total(orders, now) {
        Err(e) => Err(e),
        Ok(total) => if fund.cash_reserves < total {
            Err(ErrorCode::InsufficientLiquidity)
        } else if fund.fixed_income_value + to_fund_precision(total as int) > u64::MAX {
            Err(ErrorCode::MathOverflow)
        } else {
            Ok(
                (
                    FundState {
                        cash_reserves: (fund.cash_reserves - total) as u64,
                        fixed_income_value: (fund.fixed_income_value + to_fund_precision(total as int)) as u64,
                        ..fund
                    },
                    total,
                ),
            )
        },
    }
}

/// Moves cash into a batch of fixed income purchases at time `now`. Every
/// order must be positive, mature after `now` and yield at most 20%; the
/// cash must cover the whole batch. Returns the cash spent (6 decimals).
/// Nothing changes when it fails.
pub fn invest_in_fixed_income(fund_state: &mut FundState, assets: &Vec<AssetPurchase>, now: i64) -> (r: Result<
    u64,
    ErrorCode,
>)
    ensures
        match r {
            Ok(total) => invest_outcome(*old(fund_state), assets@, now) == Ok::<(FundState, u64), ErrorCode>(
                (*final(fund_state), total),
            ),
            Err(e) => {
                &&& invest_outcome(*old(fund_state), assets@, now) == Err::<(FundState, u64), ErrorCode>(e)
                &&& *final(fund_state) == *old(fund_state)
            },
        },
{
    let mut total_investment: u64 = 0;
    let mut i: usize = 0;
    while i < assets.len()
        invariant
            i <= assets@.len(),
            batch_total(assets@.take(i as int), now) == Ok::<u64, ErrorCode>(total_investment),
        decreases assets@.len() - i,
    {
        proof {
            assert(assets@.take(i as int + 1).drop_last() == assets@.take(i as int));
        }
        let asset = &assets[i];
        let failure = if asset.amount == 0 {
            Some(ErrorCode::InvalidAmount)
        } else if asset.maturity_date <= now {
            Some(ErrorCode::InvalidMaturityDate)
        } else if asset.yield_rate > MAX_PURCHASE_YIELD_BPS {
            Some(ErrorCode::InvalidYieldRate)
        } else {
            None
        };
        let next = match failure {
            Some(e) => Err(e),
            None => total_investment.checked_add(asset.amount).ok_or(ErrorCode::MathOverflow),
        };
        match next {
            Ok(t) => total_investment = t,
            Err(e) => {
                proof {
                    lemma_batch_error_persists(assets@, now, i as int + 1, assets@.len() as int);
                    assert(assets@.take(assets@.len() as int) == assets@);
                }
                return Err(e);
            },
        }
        i = i + 1;
    }
    proof {
        assert(assets@.take(assets@.len() as int) == assets@);
    }
    if fund_state.cash_reserves < total_investment {
        return Err(ErrorCode::InsufficientLiquidity);
    }
    let value: u128 = (total_investment as u128) * 100u128;
    if fund_state.fixed_income_value as u128 + value > u64::MAX as u128 {
        return Err(ErrorCode::MathOverflow);
    }
    fund_state.cash_reserves = fund_state.cash_reserves - total_investment;
    fund_state.fixed_income_value = (fund_state.fixed_income_value as u128 + value) as u64;
    Ok(total_investment)
}

} // verus!
