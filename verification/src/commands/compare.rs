//! Arguments of `compare` on local paths.
use vstd::prelude::*;

use crate::pathname::{file_name, path_file_name};
use crate::report::OutputFormat;

verus! {

/// Compare two workspaces or crates.
#[derive(Debug, Clone)]
pub struct CompareCommand {
    /// Path to the first (left) workspace
    pub left: String,
    /// Path to the second (right) workspace
    pub right: String,
    /// Output format
    pub format: OutputFormat,
}

/// The name of a compared side: the final component of its resolved path, else `fallback`.
pub open spec fn side_name(resolved: Seq<char>, fallback: Seq<char>) -> Seq<char> {
    match path_file_name(resolved) {
        Some(n) => n,
        None => fallback,
    }
}

impl CompareCommand {
    /// The names of the two sides, from their resolved paths; `left` and `right` stand in
    /// for a path without a final component.
    pub fn side_names(left_resolved: &str, right_resolved: &str) -> (r: (String, String))
        ensures
            r.0@ == side_name(left_resolved@, "left"@),
            r.1@ == side_name(right_resolved@, "right"@),
    {
        let left = match file_name(left_resolved) {
            Some(n) => n,
            None => String::from_str("left"),
        };
        let right = match file_name(right_resolved) {
            Some(n) => n,
            None => String::from_str("right"),
        };
        (left, right)
    }
}

} // verus!
