//! Metric aggregation levels.
pub mod function_metrics;
