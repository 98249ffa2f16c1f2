//! Verified core of a mean-computation micro-benchmark: size-label and
//! speedup formatting, group decomposition arithmetic, and the strategy
//! selector that the benchmark driver dispatches through.

pub mod label;
pub mod speedup;
pub mod strategy;
