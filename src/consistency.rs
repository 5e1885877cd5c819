//! Reconciliation of the fund's totals, and the facts that the ledger
//! operations keep the NAV reconciled with them.
use vstd::prelude::*;

use crate::error::ErrorCode;
use crate::instructions::deposit::deposit_outcome;
use crate::instructions::invest_fixed_income::{invest_outcome, AssetPurchase};
use crate::instructions::update_nav::{update_nav_outcome, AssetValuation};
use crate::instructions::withdraw::withdraw_outcome;
use crate::state::{Address, FundState, UserFundAccount};
use crate::utils::calculations::nav_in_bounds;
use crate::utils::validation::{
    abs_diff, assets_reconcile, nav_reconciles, validate_fund_state_consistency,
};
use vstd::arithmetic::div_mod::{lemma_fundamental_div_mod, lemma_mod_bound};

verus! {

/// Checks a fund record's totals against each other: assets against cash
/// plus fixed income within 0.1%, and the NAV against the NAV the totals
/// imply within 0.01%. Changes nothing.
pub fn check_fund_state(fund_state: &FundState) -> (r: Result<(), ErrorCode>)
    ensures
        r == (if assets_reconcile(fund_state.total_assets, fund_state.cash_reserves, fund_state.fixed_income_value)
            && nav_reconciles(fund_state.total_assets, fund_state.total_shares, fund_state.nav_per_share) {
            Ok(())
        } else {
            Err(ErrorCode::InconsistentFundState)
        }),
{
    validate_fund_state_consistency(
        fund_state.total_assets,
        fund_state.total_shares,
        fund_state.nav_per_share,
        fund_state.cash_reserves,
        fund_state.fixed_income_value,
    )
}

/// `x / d` lies in `[lo, hi]` exactly when `x` lies in `[lo * d, (hi + 1) * d)`.
pub proof fn lemma_floor_div_window(x: int, d: int, lo: int, hi: int)
    requires
        d > 0,
    ensures
        (lo <= x / d <= hi) <==> (lo * d <= x < (hi + 1) * d),
{
    let q = x / d;
    lemma_fundamental_div_mod(x, d);
    lemma_mod_bound(x, d);
    assert(q * d <= x < q * d + d) by (nonlinear_arith)
        requires
            x == d * q + x % d,
            0 <= x % d < d,
    ;
    if lo <= q <= hi {
        assert(lo * d <= x < (hi + 1) * d) by (nonlinear_arith)
            requires
                q * d <= x < q * d + d,
                lo <= q <= hi,
                d > 0,
        ;
    }
    if lo * d <= x < (hi + 1) * d {
        assert(lo <= q <= hi) by (nonlinear_arith)
            requires
                q * d <= x < q * d + d,
                lo * d <= x < (hi + 1) * d,
                d > 0,
        ;
    }
}

/// A successful NAV update with shares outstanding leaves the NAV equal to
/// the NAV its totals imply, so the fund passes the NAV reconciliation.
pub proof fn lemma_update_nav_reconciles(
    fund: FundState,
    valuations: Seq<AssetValuation>,
    net_daily_pnl: i64,
    now: i64,
)
    requires
        update_nav_outcome(fund, valuations, net_daily_pnl, now) is Ok,
    ensures
        ({
            let f = update_nav_outcome(fund, valuations, net_daily_pnl, now)->Ok_0;
            &&& nav_reconciles(f.total_assets, f.total_shares, f.nav_per_share)
            &&& f.total_shares > 0 ==> f.nav_per_share == f.total_assets * 100_000_000 / (
            f.total_shares as int)
        }),
{
}

/// A deposit into a fund whose NAV is within bounds and reconciles with its
/// totals keeps the NAV reconciled; an empty fund counts as reconciled only
/// when it also holds no assets.
pub proof fn lemma_deposit_keeps_nav_reconciled(
    fund: FundState,
    user: UserFundAccount,
    owner: Address,
    amount: u64,
    now: i64,
)
    requires
        deposit_outcome(fund, user, owner, amount, now) is Ok,
        nav_in_bounds(fund.nav_per_share as int),
        nav_reconciles(fund.total_assets, fund.total_shares, fund.nav_per_share),
        fund.total_shares == 0 ==> fund.total_assets == 0,
    ensures
        ({
            let f = deposit_outcome(fund, user, owner, amount, now)->Ok_0.0;
            nav_reconciles(f.total_assets, f.total_shares, f.nav_per_share)
        }),
{
    let f = deposit_outcome(fund, user, owner, amount, now)->Ok_0.0;
    let minted = deposit_outcome(fund, user, owner, amount, now)->Ok_0.2;
    let n = fund.nav_per_share as int;
    let t = n / 10000;
    let s = fund.total_shares as int;
    let x = fund.total_assets * 100_000_000;
    let lot = amount * 10_000_000_000;
    let m = minted as int;
    assert(m == lot / n);
    assert(f.nav_per_share == fund.nav_per_share);
    assert(f.total_shares == s + m);
    assert(f.total_assets * 100_000_000 == x + lot);
    // The old totals sit in the window (or are both zero).
    if s > 0 {
        lemma_floor_div_window(x, s, n - t, n + t);
        assert(abs_diff(x / s, n) <= t);
    }
    assert((n - t) * s <= x <= (n + t + 1) * s) by (nonlinear_arith)
        requires
            s > 0 ==> (n - t) * s <= x < (n + t + 1) * s,
            s == 0 ==> x == 0,
            s >= 0,
    ;
    // The new lot sits strictly inside the window.
    lemma_floor_div_window(lot, n, m, m);
    assert(m >= 10000) by (nonlinear_arith)
        requires
            lot < (m + 1) * n,
            lot >= 10_000_000_000_000_000,
            0 < n <= 105_000_000,
    ;
    assert(t * 10000 > n - 10000);
    assert((n - t) * m <= lot < (n + t + 1) * m) by (nonlinear_arith)
        requires
            m * n <= lot < (m + 1) * n,
            m >= 10000,
            t * 10000 > n - 10000,
            0 <= t,
            n > 0,
    ;
    // Their sum does too.
    assert((n - t) * (s + m) <= x + lot < (n + t + 1) * (s + m)) by (nonlinear_arith)
        requires
            (n - t) * s <= x <= (n + t + 1) * s,
            (n - t) * m <= lot < (n + t + 1) * m,
    ;
    lemma_floor_div_window(x + lot, s + m, n - t, n + t);
}

/// Moving cash into fixed income leaves total assets, shares and NAV as they
/// were, so a reconciled NAV stays reconciled.
pub proof fn lemma_invest_keeps_nav_reconciled(fund: FundState, orders: Seq<AssetPurchase>, now: i64)
    requires
        invest_outcome(fund, orders, now) is Ok,
        nav_reconciles(fund.total_assets, fund.total_shares, fund.nav_per_share),
    ensures
        ({
            let f = invest_outcome(fund, orders, now)->Ok_0.0;
            nav_reconciles(f.total_assets, f.total_shares, f.nav_per_share)
        }),
{
}

/// The NAV bounds hold at all times: a NAV update only succeeds with a NAV
/// inside them, and deposits, withdrawals and fixed income purchases leave
/// the NAV as it was.
pub proof fn lemma_operations_keep_nav_in_bounds(
    fund: FundState,
    user: UserFundAccount,
    owner: Address,
    amount: u64,
    shares: u64,
    valuations: Seq<AssetValuation>,
    net_daily_pnl: i64,
    orders: Seq<AssetPurchase>,
    now: i64,
)
    requires
        nav_in_bounds(fund.nav_per_share as int),
    ensures
        deposit_outcome(fund, user, owner, amount, now) matches Ok((f, _, _)) ==> nav_in_bounds(
            f.nav_per_share as int,
        ),
        withdraw_outcome(fund, user, shares, now) matches Ok((f, _, _)) ==> nav_in_bounds(
            f.nav_per_share as int,
        ),
        update_nav_outcome(fund, valuations, net_daily_pnl, now) matches Ok(f) ==> nav_in_bounds(
            f.nav_per_share as int,
        ),
        invest_outcome(fund, orders, now) matches Ok((f, _)) ==> nav_in_bounds(f.nav_per_share as int),
{
}

} // verus!
