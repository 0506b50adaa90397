//! A binary-outcome (YES/NO) prediction market priced by a constant-product
//! market maker (CPMM).
//!
//! The crate holds the market's economic state machine: basis-point fees on
//! trades, the CPMM swap pricing, the Open -> Resolved lifecycle, and the
//! snapshot-based pro-rata settlement of winning shares against the pooled
//! collateral balance. Every operation is a total function on plain values:
//! it validates its inputs, and either applies the whole transition or
//! returns an error and leaves every record untouched. Custody of collateral,
//! account derivation and caller authentication belong to the surrounding
//! host, which passes in the values this core needs (the current time, the
//! vault balance) and moves collateral by the amounts this core returns.

pub mod cpmm;
pub mod errors;
pub mod fees;
pub mod laws;
pub mod market;
