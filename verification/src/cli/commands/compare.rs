//! Arguments of `compare`.
use vstd::prelude::*;

use crate::cli::format::OutputFormat;
use crate::cli::repo::source::RepoSource;

verus! {

/// Compare two workspaces or crates.
#[derive(Debug, Clone)]
pub struct CompareCommand {
    /// First source to compare (local path or git URL with optional @ref)
    pub left_source: RepoSource,
    /// Second source to compare (local path or git URL with optional @ref)
    pub right_source: RepoSource,
    /// Relative path within the first source (also used for second if not specified)
    pub left_path: String,
    /// Relative path within the second source (defaults to left_path)
    pub right_path: Option<String>,
    /// Output format
    pub format: OutputFormat,
}

impl CompareCommand {
    /// The relative path analyzed within the second source.
    pub fn effective_right_path(&self) -> (r: String)
        ensures
            r@ == match self.right_path {
                Some(p) => p@,
                None => self.left_path@,
            },
    {
        match &self.right_path {
            Some(p) => p.clone(),
            None => self.left_path.clone(),
        }
    }
}

} // verus!
