//! Metrics extraction with rust-code-analysis: the parts that decide, apart from the parser.
use vstd::prelude::*;

use crate::domain::metrics::function_metrics::FunctionKind;
use crate::analyzer::law_collected_functions_are_the_function_spaces;
use crate::extraction::{functions_in_forest, functions_in_tree, kind_count, space_at, SpaceKind, SpaceTree};

verus! {

/// Metrics extractor using rust-code-analysis.
#[derive(Debug, Clone, Copy)]
pub struct RcaExtractor;

/// Failures while extracting metrics from a file.
#[derive(Debug, Clone)]
pub enum RcaError {
    ReadError(String),
    ParseError { path: String },
    InvalidMetric(String),
}

impl RcaError {
    /// The message that describes this error.
    pub fn message(&self) -> (r: String)
        ensures
            r@ == match *self {
                RcaError::ReadError(m) => "failed to read file: "@ + m@,
                RcaError::ParseError { path } => "failed to parse file: "@ + path@,
                RcaError::InvalidMetric(m) => "invalid metric value: "@ + m@,
            },
    {
        match self {
            RcaError::ReadError(m) => String::from_str("failed to read file: ").concat(m.as_str()),
            RcaError::ParseError { path } => String::from_str("failed to parse file: ").concat(path.as_str()),
            RcaError::InvalidMetric(m) => String::from_str("invalid metric value: ").concat(m.as_str()),
        }
    }
}

/// Map the parser's space kind to a function kind, returning None for non-function spaces.
pub fn to_function_kind(kind: SpaceKind) -> (r: Option<FunctionKind>)
    ensures
        r == (if kind == SpaceKind::Function {
            Some(FunctionKind::Function)
        } else {
            None::<FunctionKind>
        }),
{
    match kind {
        SpaceKind::Function => Some(FunctionKind::Function),
        // the parser reports closures as functions
        _ => None,
    }
}

/// Recursively collect the items of the function spaces of a tree, in pre-order.
/// Only actual functions are collected, not the file-level unit or impl blocks.
pub fn collect_functions<T: Copy>(space: &SpaceTree<T>, out: &mut Vec<T>)
    ensures
        final(out)@ == old(out)@ + functions_in_tree(*space),
        final(out)@.len() == old(out)@.len() + kind_count(*space, SpaceKind::Function),
        forall|p: Seq<int>|
            #[trigger] space_at(*space, p) matches Some(sp) ==> (sp.kind == SpaceKind::Function
                ==> final(out)@.subrange(old(out)@.len() as int, final(out)@.len() as int).contains(sp.item)),
        forall|x: T|
            #[trigger] final(out)@.subrange(old(out)@.len() as int, final(out)@.len() as int).contains(x)
                ==> exists|p: Seq<int>|
                (#[trigger] space_at(*space, p) matches Some(sp) && sp.kind == SpaceKind::Function && sp.item == x),
    decreases space,
{
    let ghost start = out@;
    if let Some(_) = to_function_kind(space.kind) {
        out.push(space.item);
    }
    let ghost own = out@;
    let n = space.spaces.len();
    let mut i: usize = 0;
    while i < n
        invariant
            n == space.spaces@.len(),
            i <= n,
            own == start + (if space.kind == SpaceKind::Function {
                seq![space.item]
            } else {
                Seq::<T>::empty()
            }),
            out@ == own + functions_in_forest(space.spaces@.subrange(0, i as int)),
        decreases n - i,
    {
        assert(space.spaces@.subrange(0, i + 1).drop_last() =~= space.spaces@.subrange(0, i as int));
        collect_functions(&space.spaces[i], out);
        i = i + 1;
        assert(out@ =~= own + functions_in_forest(space.spaces@.subrange(0, i as int)));
    }
    assert(space.spaces@.subrange(0, n as int) =~= space.spaces@);
    assert(out@ =~= start + functions_in_tree(*space));
    proof {
        law_collected_functions_are_the_function_spaces(*space);
        let added = out@.subrange(start.len() as int, out@.len() as int);
        assert(added =~= functions_in_tree(*space));
        assert(start == old(out)@);
    }
}

} // verus!
