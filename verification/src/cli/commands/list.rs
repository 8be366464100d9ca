//! Arguments of `list`.
use vstd::prelude::*;

use crate::cli::repo::source::RepoSource;

verus! {

/// List discovered crates in a workspace.
#[derive(Debug, Clone)]
pub struct ListCommand {
    /// Source to list (local path or git URL with optional @ref)
    pub source: RepoSource,
    /// Relative path within the source
    pub path: String,
}

} // verus!
