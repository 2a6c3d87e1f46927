//! A numerically stable, incremental Z-score engine over a sliding window.
//!
//! Observations are IEEE 754 binary64 values, handled throughout as their
//! bit patterns (`u64`). Arithmetic on those values goes through a small set
//! of trusted wrappers around a software implementation of IEEE 754; the
//! window bookkeeping, the shifted-data accumulator algebra, the ordering
//! predicate and the square root are verified code.

pub mod fp;
pub mod laws;
pub mod zscore;

pub use zscore::ZScoreEngine;
