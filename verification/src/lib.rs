//! A progressive tax computation engine: federal bracket tax, flat-rate state
//! tax, FICA payroll tax, self-employment tax, and quarterly estimates.
//!
//! All money amounts are integer cents; all rates are integer basis points
//! (1/100 of a percent), so every constant of the 2024 tables is exact.

pub mod brackets;
pub mod crypto;
pub mod federal;
pub mod fica;
pub mod filing;
pub mod money;
pub mod records;
pub mod self_employment;
pub mod settings;
pub mod state;
pub mod summary;
pub mod text;

