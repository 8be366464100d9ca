//! Paths resolved to their canonical form where possible.
use vstd::prelude::*;

verus! {

/// A path that has been resolved to its canonical form if possible.
///
/// On construction the canonical form is used when resolution succeeded; otherwise
/// the path as given is kept (e.g., the path doesn't exist yet).
#[derive(Clone, Debug)]
pub struct ResolvedPath(String);

impl View for ResolvedPath {
    type V = Seq<char>;

    closed spec fn view(&self) -> Seq<char> {
        self.0@
    }
}

impl ResolvedPath {
    /// `canonical` is what canonicalizing `path` gave, when that succeeded.
    pub fn new(path: String, canonical: Option<String>) -> (r: Self)
        ensures
            r@ == match canonical {
                Some(c) => c@,
                None => path@,
            },
    {
        match canonical {
            Some(c) => ResolvedPath(c),
            None => ResolvedPath(path),
        }
    }

    pub fn as_str(&self) -> (r: &str)
        ensures
            r@ == self@,
    {
        self.0.as_str()
    }
}

} // verus!
