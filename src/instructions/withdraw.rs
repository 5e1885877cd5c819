//! Withdrawals: fund tokens burnt at the current NAV, cash out.
use vstd::prelude::*;

use crate::error::ErrorCode;
use crate::instructions::deposit::deposit_outcome;
use crate::state::{Address, FundState, UserFundAccount};
use crate::utils::calculations::{
    calculate_withdrawal_amount, lemma_deposit_withdraw_round_trip, nav_in_bounds, to_fund_precision,
    usdc_for_shares, usdc_to_fund_precision,
    withdrawal_amount_result,
};

verus! {

/// Whether booking a withdrawal of `shares` that pays out `amount` would take
/// a total below zero or push a counter past its range.
pub open spec fn withdraw_overflows(fund: FundState, user: UserFundAccount, shares: u64, amount: u64) -> bool {
    let value = to_fund_precision(amount as int);
    ||| value > u64::MAX
    ||| fund.total_assets < value
    ||| fund.total_shares < shares
    ||| user.total_withdrawn + value > u64::MAX
    ||| user.withdrawal_count + 1 > u32::MAX
}

/// The fund record after `shares` are burnt for `amount` of cash.
pub open spec fn fund_after_withdraw(fund: FundState, shares: u64, amount: u64) -> FundState {
    FundState {
        total_assets: (fund.total_assets - to_fund_precision(amount as int)) as u64,
        total_shares: (fund.total_shares - shares) as u64,
        cash_reserves: (fund.cash_reserves - amount) as u64,
        ..fund
    }
}

/// The holder's record after redeeming `shares` for `amount` at `now`.
pub open spec fn user_after_withdraw(user: UserFundAccount, shares: u64, amount: u64, now: i64) -> UserFundAccount {
    UserFundAccount {
        fund_tokens: (user.fund_tokens - shares) as u64,
        total_withdrawn: (user.total_withdrawn + to_fund_precision(amount as int)) as u64,
        last_withdrawal_time: now,
        withdrawal_count: (user.withdrawal_count + 1) as u32,
        ..user
    }
}

/// Outcome of redeeming `shares` at time `now`: the new fund and holder
/// records and the cash paid out (6 decimals), or the first check that fails.
pub open spec fn withdraw_outcome(fund: FundState, user: UserFundAccount, shares: u64, now: i64) -> Result<
    (FundState, UserFundAccount, u64),
    ErrorCode,
> {
    if fund.is_paused {
        Err(ErrorCode::FundPaused)
    } else if shares == 0 {
        Err(ErrorCode::WithdrawAmountZero)
    } else if user.fund_tokens < shares {
        Err(ErrorCode::InsufficientFundTokens)
    } else {
        match withdrawal_amount_result(shares, fund.nav_per_share) {
            Err(e) => Err(e),
            Ok(amount) => if fund.cash_reserves < amount {
                Err(ErrorCode::InsufficientLiquidity)
            } else if withdraw_overflows(fund, user, shares, amount) {
                Err(ErrorCode::MathOverflow)
            } else {
                Ok(
                    (
                        fund_after_withdraw(fund, shares, amount),
                        user_after_withdraw(user, shares, amount, now),
                        amount,
                    ),
                )
            },
        }
    }
}

/// Redeems `fund_tokens` of the holder at time `now`: burns them at the
/// current NAV, pays out cash only when the reserves cover all of it, and
/// lowers the fund's totals. Returns the cash paid (6 decimals). Nothing
/// changes when it fails.
pub fn withdraw(
    fund_state: &mut FundState,
    user_account: &mut UserFundAccount,
    fund_tokens: u64,
    now: i64,
) -> (r: Result<u64, ErrorCode>)
    ensures
        match r {
            Ok(amount) => withdraw_outcome(*old(fund_state), *old(user_account), fund_tokens, now)
                == Ok::<(FundState, UserFundAccount, u64), ErrorCode>(
                (*final(fund_state), *final(user_account), amount),
            ),
            Err(e) => {
                &&& withdraw_outcome(*old(fund_state), *old(user_account), fund_tokens, now) == Err::<
                    (FundState, UserFundAccount, u64),
                    ErrorCode,
                >(e)
                &&& *final(fund_state) == *old(fund_state)
                &&& *final(user_account) == *old(user_account)
            },
        },
{
    if fund_state.is_paused {
        return Err(ErrorCode::FundPaused);
    }
    if fund_tokens == 0 {
        return Err(ErrorCode::WithdrawAmountZero);
    }
    if user_account.fund_tokens < fund_tokens {
        return Err(ErrorCode::InsufficientFundTokens);
    }
    let amount = calculate_withdrawal_amount(fund_tokens, fund_state.nav_per_share)?;
    if fund_state.cash_reserves < amount {
        return Err(ErrorCode::InsufficientLiquidity);
    }
    let value = usdc_to_fund_precision(amount)?;
    let total_assets = fund_state.total_assets.checked_sub(value).ok_or(ErrorCode::MathOverflow)?;
    let total_shares = fund_state.total_shares.checked_sub(fund_tokens).ok_or(ErrorCode::MathOverflow)?;
    let total_withdrawn = user_account.total_withdrawn.checked_add(value).ok_or(ErrorCode::MathOverflow)?;
    let withdrawal_count = user_account.withdrawal_count.checked_add(1).ok_or(ErrorCode::MathOverflow)?;

    fund_state.total_assets = total_assets;
    fund_state.total_shares = total_shares;
    fund_state.cash_reserves = fund_state.cash_reserves - amount;
    user_account.fund_tokens = user_account.fund_tokens - fund_tokens;
    user_account.total_withdrawn = total_withdrawn;
    user_account.last_withdrawal_time = now;
    user_account.withdrawal_count = withdrawal_count;
    Ok(amount)
}

/// Redeeming 1,000 tokens at a NAV of $1.02 pays out 1,020 units of the
/// deposit asset and takes the same amounts off the fund and the holder.
pub proof fn lemma_withdraw_at_higher_nav_example(fund: FundState, user: UserFundAccount, now: i64)
    requires
        !fund.is_paused,
        fund.nav_per_share == 102_000_000,
        user.fund_tokens >= 100_000_000_000,
        fund.cash_reserves >= 1_020_000_000,
        fund.total_assets >= 102_000_000_000,
        fund.total_shares >= 100_000_000_000,
        user.total_withdrawn + 102_000_000_000 <= u64::MAX,
        user.withdrawal_count < u32::MAX,
    ensures
        withdraw_outcome(fund, user, 100_000_000_000, now) matches Ok((f, u, paid)) && paid
            == 1_020_000_000 && f.cash_reserves == fund.cash_reserves - 1_020_000_000 && f.total_assets
            == fund.total_assets - 102_000_000_000 && f.total_shares == fund.total_shares - 100_000_000_000
            && u.fund_tokens == user.fund_tokens - 100_000_000_000,
{
    assert(usdc_for_shares(100_000_000_000, 102_000_000) == 1_020_000_000);
}

/// A deposit followed at once by the redemption of every token it minted, at
/// the same NAV within bounds, succeeds and pays back the amount deposited
/// less at most one unit; the holder's tokens and the fund's shares are back
/// where they started, and what was not paid back stays in the fund.
pub proof fn lemma_deposit_then_withdraw_all(
    fund: FundState,
    user: UserFundAccount,
    owner: Address,
    amount: u64,
    deposit_time: i64,
    withdraw_time: i64,
)
    requires
        nav_in_bounds(fund.nav_per_share as int),
        deposit_outcome(fund, user, owner, amount, deposit_time) is Ok,
        user.total_withdrawn + 100 * amount <= u64::MAX,
        user.withdrawal_count < u32::MAX,
    ensures
        ({
            let (f1, u1, minted) = deposit_outcome(fund, user, owner, amount, deposit_time)->Ok_0;
            withdraw_outcome(f1, u1, minted, withdraw_time) matches Ok((f2, u2, paid)) && amount - 1 <= paid
                <= amount && u2.fund_tokens == user.fund_tokens && f2.total_shares == fund.total_shares
                && f2.cash_reserves == fund.cash_reserves + (amount - paid) && f2.total_assets
                == fund.total_assets + 100 * (amount - paid)
        }),
{
    lemma_deposit_withdraw_round_trip(amount, fund.nav_per_share);
}

} // verus!
