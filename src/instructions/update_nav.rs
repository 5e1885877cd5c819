//! NAV marks: rate-limited, bounded re-marking of the fund's assets.
use vstd::prelude::*;

use crate::error::ErrorCode;
use crate::state::{Address, FundState};
use crate::utils::calculations::{
    calculate_nav_per_share, nav_from_totals, nav_in_bounds,
    to_fund_precision, MAX_NAV, MIN_NAV,
};

verus! {

/// Shortest time between two NAV marks (23 hours, in seconds).
pub const MIN_NAV_UPDATE_INTERVAL: i64 = 82_800;

/// A fresh mark of one holding, as fed to a NAV update.
#[derive(Debug, Clone, Copy)]
pub struct AssetValuation {
    pub asset_id: Address,
    pub current_value: u64,
}

/// Sum of the marked values.
pub open spec fn valuation_sum(s: Seq<AssetValuation>) -> int
    decreases s.len(),
{
    if s.len() == 0 {
        0
    } else {
        valuation_sum(s.drop_last()) + s.last().current_value
    }
}

/// The sum of a prefix of marks never exceeds the sum of all of them.
pub proof fn lemma_valuation_sum_prefix(s: Seq<AssetValuation>, i: int)
    requires
        0 <= i <= s.len(),
    ensures
        valuation_sum(s.take(i)) <= valuation_sum(s),
        valuation_sum(s.take(i)) >= 0,
    decreases s.len(),
{
    if s.len() > 0 {
        if i == s.len() {
            assert(s.take(i) == s);
            lemma_valuation_sum_prefix(s.drop_last(), s.len() - 1);
            assert(s.drop_last().take(s.len() - 1) == s.drop_last());
        } else {
            lemma_valuation_sum_prefix(s.drop_last(), i);
            assert(s.drop_last().take(i) == s.take(i));
        }
    }
}

/// Total assets from the marked total (cash at 8 decimals plus every mark,
/// summed at 128 bits) and a signed daily profit or loss. The sum must fit
/// in 128 bits, a loss may not exceed it, and only the result has to fit in
/// 64 bits.
pub open spec fn marked_assets_after_pnl(marked: int, net_daily_pnl: i64) -> Result<u64, ErrorCode> {
    if marked > u128::MAX {
        Err(ErrorCode::MathOverflow)
    } else if net_daily_pnl < 0 && -net_daily_pnl > marked {
        Err(ErrorCode::InsufficientFunds)
    } else if marked + net_daily_pnl > u64::MAX {
        Err(ErrorCode::MathOverflow)
    } else {
        Ok((marked + net_daily_pnl) as u64)
    }
}

/// Outcome of a NAV update at time `now` from fresh marks of the holdings and
/// a signed daily profit or loss: the new fund record, or the first check
/// that fails.
pub open spec fn update_nav_outcome(
    fund: FundState,
    valuations: Seq<AssetValuation>,
    net_daily_pnl: i64,
    now: i64,
) -> Result<FundState, ErrorCode> {
    let marked = to_fund_precision(fund.cash_reserves as int) + valuation_sum(valuations);
    if fund.is_paused {
        Err(ErrorCode::FundPaused)
    } else if now - fund.last_nav_update < MIN_NAV_UPDATE_INTERVAL {
        Err(ErrorCode::NAVUpdateTooFrequent)
    } else {
        match marked_assets_after_pnl(marked, net_daily_pnl) {
            Err(e) => Err(e),
            Ok(assets) => {
                let nav = if fund.total_shares > 0 {
                    nav_from_totals(assets as int, fund.total_shares as int)
                } else {
                    fund.nav_per_share as int
                };
                if nav < MIN_NAV {
                    Err(ErrorCode::NAVTooLow)
                } else if nav > MAX_NAV {
                    Err(ErrorCode::NAVTooHigh)
                } else if net_daily_pnl > 0 && fund.total_yield_distributed + net_daily_pnl > u64::MAX {
                    Err(ErrorCode::MathOverflow)
                } else {
                    Ok(
                        FundState {
                            total_assets: assets,
                            nav_per_share: nav as u64,
                            last_nav_update: now,
                            total_yield_distributed: if net_daily_pnl > 0 {
                                (fund.total_yield_distributed + net_daily_pnl) as u64
                            } else {
                                fund.total_yield_distributed
                            },
                            ..fund
                        },
                    )
                }
            },
        }
    }
}

/// Re-marks the fund at time `now`: total assets become the cash plus the
/// fresh holding marks, adjusted by the daily profit or loss, and the NAV is
/// recomputed from them (kept when no shares exist). Refused when paused,
/// within 23 hours of the last mark, or when the NAV would leave its bounds.
/// Returns the new total assets and NAV. Nothing changes when it fails.
pub fn update_nav(
    fund_state: &mut FundState,
    new_asset_valuations: &Vec<AssetValuation>,
    net_daily_pnl: i64,
    now: i64,
) -> (r: Result<(u64, u64), ErrorCode>)
    ensures
        match r {
            Ok((assets, nav)) => {
                &&& update_nav_outcome(*old(fund_state), new_asset_valuations@, net_daily_pnl, now)
                    == Ok::<FundState, ErrorCode>(*final(fund_state))
                &&& assets == final(fund_state).total_assets
                &&& nav == final(fund_state).nav_per_share
                &&& nav_in_bounds(nav as int)
            },
            Err(e) => {
                &&& update_nav_outcome(*old(fund_state), new_asset_valuations@, net_daily_pnl, now)
                    == Err::<FundState, ErrorCode>(e)
                &&& *final(fund_state) == *old(fund_state)
            },
        },
{
    if fund_state.is_paused {
        return Err(ErrorCode::FundPaused);
    }
    if (now as i128) - (fund_state.last_nav_update as i128) < MIN_NAV_UPDATE_INTERVAL as i128 {
        return Err(ErrorCode::NAVUpdateTooFrequent);
    }
    let marked = mark_assets(fund_state.cash_reserves, new_asset_valuations)?;
    let new_total_assets = apply_pnl_to_marked(marked, net_daily_pnl)?;
    let new_nav = if fund_state.total_shares > 0 {
        calculate_nav_per_share(new_total_assets, fund_state.total_shares)?
    } else {
        let nav = fund_state.nav_per_share;
        if nav < MIN_NAV {
            return Err(ErrorCode::NAVTooLow);
        }
        if nav > MAX_NAV {
            return Err(ErrorCode::NAVTooHigh);
        }
        nav
    };
    let total_yield_distributed = if net_daily_pnl > 0 {
        fund_state.total_yield_distributed.checked_add(net_daily_pnl as u64).ok_or(ErrorCode::MathOverflow)?
    } else {
        fund_state.total_yield_distributed
    };

    fund_state.total_assets = new_total_assets;
    fund_state.nav_per_share = new_nav;
    fund_state.last_nav_update = now;
    fund_state.total_yield_distributed = total_yield_distributed;
    Ok((new_total_assets, new_nav))
}

/// Cash (raised to 8 decimals) plus every marked value, summed at 128 bits;
/// fails only when that sum leaves the 128-bit range.
fn mark_assets(cash_reserves: u64, valuations: &Vec<AssetValuation>) -> (r: Result<u128, ErrorCode>)
    ensures
        valuation_sum(valuations@) >= 0,
        ({
            let marked = to_fund_precision(cash_reserves as int) + valuation_sum(valuations@);
            r == (if marked > u128::MAX {
                Err(ErrorCode::MathOverflow)
            } else {
                Ok(marked as u128)
            })
        }),
{
    proof {
        lemma_valuation_sum_prefix(valuations@, 0);
    }
    let mut total: u128 = (cash_reserves as u128) * 100u128;
    let mut i: usize = 0;
    while i < valuations.len()
        invariant
            i <= valuations@.len(),
            total == to_fund_precision(cash_reserves as int) + valuation_sum(valuations@.take(i as int)),
        decreases valuations@.len() - i,
    {
        proof {
            assert(valuations@.take(i as int + 1).drop_last() == valuations@.take(i as int));
            lemma_valuation_sum_prefix(valuations@, i as int + 1);
        }
        match total.checked_add(valuations[i].current_value as u128) {
            Some(t) => total = t,
            None => return Err(ErrorCode::MathOverflow),
        }
        i = i + 1;
    }
    proof {
        assert(valuations@.take(valuations@.len() as int) == valuations@);
    }
    Ok(total)
}

/// Applies a signed daily profit or loss to the 128-bit marked total; the
/// result must fit in 64 bits.
fn apply_pnl_to_marked(marked: u128, net_daily_pnl: i64) -> (r: Result<u64, ErrorCode>)
    ensures
        r == marked_assets_after_pnl(marked as int, net_daily_pnl),
{
    let total: u128 = if net_daily_pnl >= 0 {
        match marked.checked_add(net_daily_pnl as u128) {
            Some(t) => t,
            None => return Err(ErrorCode::MathOverflow),
        }
    } else {
        let loss: u128 = (-(net_daily_pnl as i128)) as u128;
        if loss > marked {
            return Err(ErrorCode::InsufficientFunds);
        }
        marked - loss
    };
    if total > u64::MAX as u128 {
        return Err(ErrorCode::MathOverflow);
    }
    Ok(total as u64)
}

/// Two NAV updates less than 23 hours apart: once the first succeeds, the
/// second is refused for coming too soon, whatever its marks and profit or
/// loss.
pub proof fn lemma_nav_updates_rate_limited(
    fund: FundState,
    first_valuations: Seq<AssetValuation>,
    first_pnl: i64,
    first_time: i64,
    second_valuations: Seq<AssetValuation>,
    second_pnl: i64,
    second_time: i64,
)
    requires
        update_nav_outcome(fund, first_valuations, first_pnl, first_time) is Ok,
        second_time - first_time < MIN_NAV_UPDATE_INTERVAL,
    ensures
        update_nav_outcome(
            update_nav_outcome(fund, first_valuations, first_pnl, first_time)->Ok_0,
            second_valuations,
            second_pnl,
            second_time,
        ) == Err::<FundState, ErrorCode>(ErrorCode::NAVUpdateTooFrequent),
{
}

/// On a fund that is not paused, a NAV update less than 23 hours after the
/// last mark is refused for coming too soon, whatever its inputs; at 23 hours
/// or more the rate limit no longer stands in the way.
pub proof fn lemma_nav_update_rate_limit(
    fund: FundState,
    valuations: Seq<AssetValuation>,
    net_daily_pnl: i64,
    now: i64,
)
    requires
        !fund.is_paused,
    ensures
        now - fund.last_nav_update < MIN_NAV_UPDATE_INTERVAL ==> update_nav_outcome(
            fund,
            valuations,
            net_daily_pnl,
            now,
        ) == Err::<FundState, ErrorCode>(ErrorCode::NAVUpdateTooFrequent),
        now - fund.last_nav_update >= MIN_NAV_UPDATE_INTERVAL ==> update_nav_outcome(
            fund,
            valuations,
            net_daily_pnl,
            now,
        ) != Err::<FundState, ErrorCode>(ErrorCode::NAVUpdateTooFrequent),
{
}

/// A fund of 10,000 shares marked at $10,000 in cash: a daily profit of
/// $1.23287671 takes the NAV to $1.00012328, and a loss of $50 takes the
/// assets to $9,950 and the NAV to $0.995.
pub proof fn lemma_daily_mark_examples(fund: FundState, now: i64)
    requires
        !fund.is_paused,
        now - fund.last_nav_update >= MIN_NAV_UPDATE_INTERVAL,
        fund.cash_reserves == 10_000_000_000,
        fund.total_shares == 1_000_000_000_000,
        fund.total_yield_distributed + 123_287_671 <= u64::MAX,
    ensures
        update_nav_outcome(fund, Seq::empty(), 123_287_671i64, now) matches Ok(f) && f.total_assets
            == 1_000_123_287_671 && f.nav_per_share == 100_012_328,
        update_nav_outcome(fund, Seq::empty(), -5_000_000_000i64, now) matches Ok(f) && f.total_assets
            == 995_000_000_000 && f.nav_per_share == 99_500_000,
{
    assert(valuation_sum(Seq::<AssetValuation>::empty()) == 0);
    assert(nav_from_totals(1_000_123_287_671, 1_000_000_000_000) == 100_012_328);
    assert(nav_from_totals(995_000_000_000, 1_000_000_000_000) == 99_500_000);
}

} // verus!
