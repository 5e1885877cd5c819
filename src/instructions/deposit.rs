//! Deposits: cash in, fund tokens minted at the current NAV.
use vstd::prelude::*;

use crate::error::ErrorCode;
use crate::state::{address_is_unset, is_unset_address, Address, FundState, UserFundAccount};
use crate::utils::calculations::{
    calculate_fund_tokens, fund_tokens_result, shares_for_deposit, to_fund_precision, usdc_to_fund_precision,
    MAX_DEPOSIT,
};

verus! {

/// Smallest deposit the deposit instruction takes ($1).
pub const MIN_DEPOSIT_AMOUNT: u64 = 1_000_000;

/// Value-weighted average of the cost of `held` tokens at `avg` and `minted`
/// new tokens at `nav`, rounded down.
pub open spec fn weighted_cost_basis(avg: int, held: int, nav: int, minted: int) -> int {
    (avg * held + nav * minted) / (held + minted)
}

/// Whether booking a deposit of `amount` that mints `minted` tokens would push a
/// counter or total past its range, or leave the holder with no tokens to
/// average over.
pub open spec fn deposit_overflows(fund: FundState, user: UserFundAccount, amount: u64, minted: u64) -> bool {
    let value = to_fund_precision(amount as int);
    ||| fund.total_assets + value > u64::MAX
    ||| fund.total_shares + minted > u64::MAX
    ||| fund.cash_reserves + amount > u64::MAX
    ||| (is_unset_address(user.owner) && fund.total_depositors + 1 > u32::MAX)
    ||| user.fund_tokens + minted > u64::MAX
    ||| user.total_deposited + value > u64::MAX
    ||| user.deposit_count + 1 > u32::MAX
    ||| user.fund_tokens + minted == 0
}

/// The fund record after a deposit of `amount` that mints `minted` tokens.
pub open spec fn fund_after_deposit(fund: FundState, user: UserFundAccount, amount: u64, minted: u64) -> FundState {
    FundState {
        total_assets: (fund.total_assets + to_fund_precision(amount as int)) as u64,
        total_shares: (fund.total_shares + minted) as u64,
        cash_reserves: (fund.cash_reserves + amount) as u64,
        total_depositors: if is_unset_address(user.owner) {
            (fund.total_depositors + 1) as u32
        } else {
            fund.total_depositors
        },
        ..fund
    }
}

/// The holder's record after a deposit of `amount` that mints `minted` tokens
/// at `nav`; a record never claimed is claimed for `owner` at `now`.
pub open spec fn user_after_deposit(
    user: UserFundAccount,
    owner: Address,
    amount: u64,
    minted: u64,
    nav: u64,
    now: i64,
) -> UserFundAccount {
    let first = is_unset_address(user.owner);
    UserFundAccount {
        owner: if first {
            owner
        } else {
            user.owner
        },
        created_at: if first {
            now
        } else {
            user.created_at
        },
        fund_tokens: (user.fund_tokens + minted) as u64,
        total_deposited: (user.total_deposited + to_fund_precision(amount as int)) as u64,
        last_deposit_time: now,
        last_deposit_nav: nav,
        deposit_count: (user.deposit_count + 1) as u32,
        avg_cost_basis: weighted_cost_basis(
            user.avg_cost_basis as int,
            user.fund_tokens as int,
            nav as int,
            minted as int,
        ) as u64,
        ..user
    }
}

/// Outcome of a deposit of `amount` (6 decimals) by `owner` at time `now`:
/// the new fund and holder records and the tokens minted, or the first check
/// that fails.
pub open spec fn deposit_outcome(
    fund: FundState,
    user: UserFundAccount,
    owner: Address,
    amount: u64,
    now: i64,
) -> Result<(FundState, UserFundAccount, u64), ErrorCode> {
    if fund.is_paused {
        Err(ErrorCode::FundPaused)
    } else if amount < MIN_DEPOSIT_AMOUNT {
        Err(ErrorCode::DepositTooSmall)
    } else if amount > MAX_DEPOSIT {
        Err(ErrorCode::DepositTooLarge)
    } else {
        match fund_tokens_result(amount, fund.nav_per_share) {
            Err(e) => Err(e),
            Ok(minted) => if deposit_overflows(fund, user, amount, minted) {
                Err(ErrorCode::MathOverflow)
            } else {
                Ok(
                    (
                        fund_after_deposit(fund, user, amount, minted),
                        user_after_deposit(user, owner, amount, minted, fund.nav_per_share, now),
                        minted,
                    ),
                )
            },
        }
    }
}

/// Books a deposit of `amount` (6 decimals) made by `owner` at time `now`:
/// mints fund tokens at the current NAV, raises the fund's totals and cash,
/// and updates the holder's record (claiming it on first use). Returns the
/// tokens minted. Nothing changes when it fails.
pub fn deposit(
    fund_state: &mut FundState,
    user_account: &mut UserFundAccount,
    owner: Address,
    amount: u64,
    now: i64,
) -> (r: Result<u64, ErrorCode>)
    ensures
        match r {
            Ok(minted) => deposit_outcome(*old(fund_state), *old(user_account), owner, amount, now)
                == Ok::<(FundState, UserFundAccount, u64), ErrorCode>(
                (*final(fund_state), *final(user_account), minted),
            ),
            Err(e) => {
                &&& deposit_outcome(*old(fund_state), *old(user_account), owner, amount, now) == Err::<
                    (FundState, UserFundAccount, u64),
                    ErrorCode,
                >(e)
                &&& *final(fund_state) == *old(fund_state)
                &&& *final(user_account) == *old(user_account)
            },
        },
{
    if fund_state.is_paused {
        return Err(ErrorCode::FundPaused);
    }
    if amount < MIN_DEPOSIT_AMOUNT {
        return Err(ErrorCode::DepositTooSmall);
    }
    if amount > MAX_DEPOSIT {
        return Err(ErrorCode::DepositTooLarge);
    }
    let nav = fund_state.nav_per_share;
    let minted = calculate_fund_tokens(amount, nav)?;
    let value = usdc_to_fund_precision(amount)?;

    let total_assets = fund_state.total_assets.checked_add(value).ok_or(ErrorCode::MathOverflow)?;
    let total_shares = fund_state.total_shares.checked_add(minted).ok_or(ErrorCode::MathOverflow)?;
    let cash_reserves = fund_state.cash_reserves.checked_add(amount).ok_or(ErrorCode::MathOverflow)?;
    let first = address_is_unset(&user_account.owner);
    let total_depositors = if first {
        fund_state.total_depositors.checked_add(1).ok_or(ErrorCode::MathOverflow)?
    } else {
        fund_state.total_depositors
    };

    let held = user_account.fund_tokens;
    let fund_tokens = held.checked_add(minted).ok_or(ErrorCode::MathOverflow)?;
    let total_deposited = user_account.total_deposited.checked_add(value).ok_or(ErrorCode::MathOverflow)?;
    let deposit_count = user_account.deposit_count.checked_add(1).ok_or(ErrorCode::MathOverflow)?;
    if fund_tokens == 0 {
        return Err(ErrorCode::MathOverflow);
    }
    let avg_cost_basis = cost_basis_after_purchase(user_account.avg_cost_basis, held, nav, minted);

    fund_state.total_assets = total_assets;
    fund_state.total_shares = total_shares;
    fund_state.cash_reserves = cash_reserves;
    fund_state.total_depositors = total_depositors;
    if first {
        user_account.owner = owner;
        user_account.created_at = now;
    }
    user_account.fund_tokens = fund_tokens;
    user_account.total_deposited = total_deposited;
    user_account.last_deposit_time = now;
    user_account.last_deposit_nav = nav;
    user_account.deposit_count = deposit_count;
    user_account.avg_cost_basis = avg_cost_basis;
    Ok(minted)
}

/// Average cost per token after buying `minted` tokens at `nav` on top of
/// `held` tokens that cost `avg` each; the products are taken at 128 bits.
fn cost_basis_after_purchase(avg: u64, held: u64, nav: u64, minted: u64) -> (r: u64)
    requires
        held + minted <= u64::MAX,
        held + minted > 0,
    ensures
        r == weighted_cost_basis(avg as int, held as int, nav as int, minted as int),
{
    let ghost m = u64::MAX as int;
    proof {
        assert((avg as int) * (held as int) + (nav as int) * (minted as int) <= m * (held + minted))
            by (nonlinear_arith)
            requires
                avg <= m,
                nav <= m,
                held >= 0,
                minted >= 0,
        ;
        assert(m * (held + minted) <= m * m) by (nonlinear_arith)
            requires
                held + minted <= m,
                m > 0,
        ;
    }
    let total_cost: u128 = (avg as u128) * (held as u128) + (nav as u128) * (minted as u128);
    let count: u128 = held as u128 + minted as u128;
    proof {
        assert(total_cost as int / (count as int) <= m) by (nonlinear_arith)
            requires
                total_cost <= m * count,
                count > 0,
        ;
    }
    (total_cost / count) as u64
}

/// A deposit whose minted tokens, or whose addition to the fund's assets,
/// shares or cash or to the holder's tokens, would pass 64 bits is refused
/// with `MathOverflow`: no total is ever wrapped.
pub proof fn lemma_deposit_never_wraps(
    fund: FundState,
    user: UserFundAccount,
    owner: Address,
    amount: u64,
    now: i64,
)
    requires
        !fund.is_paused,
        MIN_DEPOSIT_AMOUNT <= amount <= MAX_DEPOSIT,
        fund.nav_per_share > 0,
        ({
            let minted = shares_for_deposit(amount as int, fund.nav_per_share as int);
            ||| minted > u64::MAX
            ||| fund.total_assets + 100 * amount > u64::MAX
            ||| fund.total_shares + minted > u64::MAX
            ||| fund.cash_reserves + amount > u64::MAX
            ||| user.fund_tokens + minted > u64::MAX
        }),
    ensures
        deposit_outcome(fund, user, owner, amount, now) == Err::<(FundState, UserFundAccount, u64), ErrorCode>(
            ErrorCode::MathOverflow,
        ),
{
}

} // verus!
