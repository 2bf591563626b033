//! A ledger engine for client accounts: deposits, withdrawals and the
//! dispute lifecycle, over fixed-point amounts with four fractional digits.

pub mod amount;
pub mod types;
pub mod ledger;
pub mod engine;
pub mod laws;
pub mod parse;
pub mod render;
