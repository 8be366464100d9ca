//! The parts of `analyze` that decide what is written.
use vstd::prelude::*;

use crate::text::{decimal, usize_to_decimal};

verus! {

/// Where a warning points: the file, then `:line` when the line is known, then ` (function)`
/// when the function is known.
pub open spec fn location_text(file: Seq<char>, function: Option<Seq<char>>, line: Option<usize>) -> Seq<char> {
    let with_line = match line {
        Some(l) => file + seq![':'] + decimal(l as nat),
        None => file,
    };
    match function {
        Some(f) => with_line + seq![' ', '('] + f + seq![')'],
        None => with_line,
    }
}

/// The location of a warning as it is printed.
pub fn warning_location(file: &str, function: Option<&str>, line: Option<usize>) -> (r: String)
    ensures
        r@ == location_text(
            file@,
            match function {
                Some(f) => Some(f@),
                None => None,
            },
            line,
        ),
{
    proof {
        reveal_strlit(":");
        reveal_strlit(" (");
        reveal_strlit(")");
    }
    let mut out = String::from_str(file);
    if let Some(l) = line {
        out = out.concat(":").concat(usize_to_decimal(l).as_str());
    }
    if let Some(f) = function {
        out = out.concat(" (").concat(f).concat(")");
    }
    assert(":"@ =~= seq![':']);
    assert(" ("@ =~= seq![' ', '(']);
    assert(")"@ =~= seq![')']);
    out
}

} // verus!
