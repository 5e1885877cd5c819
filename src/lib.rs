//! Fund accounting core of a tokenized fund: share minting and burning,
//! NAV marking with bounded updates, fee accrual, portfolio limits and
//! consistency checks, all in integer fixed-point arithmetic.
pub mod consistency;
pub mod error;
pub mod instructions;
pub mod state;
pub mod utils;
