//! A small payments ledger: it consumes an ordered sequence of transaction
//! records (deposits, withdrawals, disputes, resolves, chargebacks) and
//! maintains per-client account balances together with an index of
//! dispute-eligible transactions.
//!
//! Monetary amounts are exact fixed-point decimals with four fractional
//! digits, held as a signed count of 1/10000 units, so all balance
//! arithmetic is exact integer arithmetic.

pub mod engine;
pub mod export;
pub mod laws;
pub mod structs;
