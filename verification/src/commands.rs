//! Arguments of the subcommands that work on local paths.
pub mod compare;
pub mod list;
