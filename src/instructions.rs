//! State transitions of the fund: each takes the records it changes and the
//! plain inputs of the operation, validates everything first, and commits
//! all of its changes or none.
pub mod admin;
pub mod deposit;
pub mod initialize_fund;
pub mod invest_fixed_income;
pub mod update_nav;
pub mod withdraw;

pub use admin::{pause_fund, unpause_fund};
pub use deposit::deposit;
pub use initialize_fund::initialize_fund;
pub use invest_fixed_income::invest_in_fixed_income;
pub use update_nav::update_nav;
pub use withdraw::withdraw;
