//! Small value types shared across the crate.
pub mod file_count;
pub mod resolved_path;
