//! An append-only ledger of price samples with a trailing-average query.
//!
//! A sample is carried as the bit pattern of an IEEE-754 double-precision
//! value; only patterns that encode a normal number (finite, nonzero, not
//! subnormal) are admitted. The ledger keeps every admitted sample in
//! insertion order and never removes or rewrites one. A query selects the
//! window of the most recent samples that a trailing average is taken over;
//! the floating-point arithmetic itself is left to the caller, which gets the
//! window back as plain values.

pub mod averager;
pub mod config;
pub mod errors;
pub mod laws;
pub mod ledger;
pub mod sample;
pub mod service;
