//! Command-line facing types: repository sources, subcommand arguments, output formats.
pub mod args;
pub mod commands;
pub mod format;
pub mod repo;
