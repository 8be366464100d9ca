//! Domain types: metric primitives, the kinds of measured functions, count thresholds.
pub mod metrics;
pub mod primitive;
pub mod thresholds;
