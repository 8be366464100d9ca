//! Report output settings.
use vstd::prelude::*;

verus! {

/// How a report is written out.
#[derive(Debug, Clone, Copy, PartialEq, Eq, Structural)]
pub enum OutputFormat {
    Table,
    Json,
    JsonPretty,
}

/// Whether a crate's path is the empty default (and is then left out of serialized reports).
pub fn is_default_path(p: &str) -> (r: bool)
    ensures
        r == (p@.len() == 0),
{
    p.is_empty()
}

} // verus!
