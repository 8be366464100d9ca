//! Threshold checks that count: too many functions in a file.
use vstd::prelude::*;

use crate::text::{decimal, usize_to_decimal};

verus! {

/// The message of a file with `count` functions against the threshold `max`.
pub open spec fn too_many_functions_message(count: usize, max: usize) -> Seq<char> {
    "Too many functions: "@ + decimal(count as nat) + " (threshold: "@ + decimal(max as nat) + seq![')']
}

/// The warning message when a file has more functions than `max`, and none otherwise.
pub fn function_count_warning(count: usize, max: usize) -> (r: Option<String>)
    ensures
        match r {
            Some(m) => count > max && m@ == too_many_functions_message(count, max) && m@ == "Too many functions: "@
                + decimal(count as nat) + " (threshold: "@ + decimal(max as nat) + ")"@,
            None => count <= max,
        },
{
    if count > max {
        proof {
            reveal_strlit(")");
        }
        assert(")"@ =~= seq![')']);
        let m = String::from_str("Too many functions: ").concat(usize_to_decimal(count).as_str()).concat(
            " (threshold: ",
        ).concat(usize_to_decimal(max).as_str()).concat(")");
        Some(m)
    } else {
        None
    }
}

} // verus!
