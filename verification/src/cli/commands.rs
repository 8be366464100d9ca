//! Arguments of the command-line subcommands.
pub mod analyze;
pub mod compare;
pub mod list;
