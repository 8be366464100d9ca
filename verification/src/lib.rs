//! Code metrics for Rust projects: the verified core of `ferriscan`.
pub mod analyzer;
pub mod cli;
pub mod commands;
pub mod domain;
pub mod extraction;
pub mod pathname;
pub mod primitives;
pub mod report;
pub mod text;
pub mod workspace;
