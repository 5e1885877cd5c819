//! Pausing and resuming the fund.
use vstd::prelude::*;

use crate::state::FundState;

verus! {

/// Halts deposits, withdrawals and NAV updates; nothing else changes.
pub fn pause_fund(fund_state: &mut FundState)
    ensures
        *final(fund_state) == (FundState { is_paused: true, ..*old(fund_state) }),
{
    fund_state.is_paused = true;
}

/// Lets deposits, withdrawals and NAV updates run again; nothing else changes.
pub fn unpause_fund(fund_state: &mut FundState)
    ensures
        *final(fund_state) == (FundState { is_paused: false, ..*old(fund_state) }),
{
    fund_state.is_paused = false;
}

} // verus!
