//! Arguments of `list` on a local path.
use vstd::prelude::*;

use crate::primitives::resolved_path::ResolvedPath;

verus! {

/// List discovered crates in a workspace.
#[derive(Debug, Clone)]
pub struct ListCommand {
    /// Path to the workspace
    pub path: ResolvedPath,
}

} // verus!
