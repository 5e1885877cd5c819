//! Pure arithmetic and validation rules of the fund.
pub mod calculations;
pub mod validation;
