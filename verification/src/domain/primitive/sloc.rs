//! Failures of operations on source line counts.
use vstd::prelude::*;

verus! {

/// An operation on a SLOC value that cannot be carried out.
#[derive(Debug, Clone, PartialEq, Eq, Structural)]
pub enum SlocOpError {
    DivisionByZero,
}

impl SlocOpError {
    /// The message that describes this error.
    pub fn message(&self) -> (r: String)
        ensures
            r@ == "cannot divide by zero SLOC"@,
    {
        String::from_str("cannot divide by zero SLOC")
    }
}

} // verus!
