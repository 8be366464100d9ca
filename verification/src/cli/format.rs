//! Output formats of the command line.
use vstd::prelude::*;

verus! {

/// How a report is written out.
#[derive(Debug, Clone, Copy, PartialEq, Eq, Structural)]
pub enum OutputFormat {
    Table,
    Json,
    JsonPretty,
}

} // verus!
