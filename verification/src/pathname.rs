//! Final path components, as `std::path::Path` computes them.
use vstd::prelude::*;

verus! {

/// The final component that `std::path::Path::file_name` finds in the path spelled `path`,
/// or `None` where it finds none (a path that ends in `..`, or the root).
pub uninterp spec fn path_file_name(path: Seq<char>) -> Option<Seq<char>>;

/// Calls `std::path::Path::file_name` on `path` and converts the component to a `String`.
/// Trusted: the result is `path_file_name(path@)`; nothing more is claimed of it.
/// The component of a path built from a `&str` is valid UTF-8, so the conversion loses nothing.
#[verifier::external_body]
pub(crate) fn file_name(path: &str) -> (r: Option<String>)
    ensures
        r.deep_view() == path_file_name(path@),
{
    std::path::Path::new(path).file_name().map(|n| n.to_string_lossy().into_owned())
}

/// The path that `std::path::Path::join` makes of `base` and `part`: `part` appended as a
/// further component (or replacing `base` when `part` is absolute).
pub uninterp spec fn path_join(base: Seq<char>, part: Seq<char>) -> Seq<char>;

/// Calls `std::path::Path::join` on `base` and `part` and converts the path to a `String`.
/// Trusted: the result is `path_join(base@, part@)`; nothing more is claimed of it.
/// A path joined from two `&str` is valid UTF-8, so the conversion loses nothing.
#[verifier::external_body]
pub(crate) fn join(base: &str, part: &str) -> (r: String)
    ensures
        r@ == path_join(base@, part@),
{
    std::path::Path::new(base).join(part).to_string_lossy().into_owned()
}

/// The file name when there is one, else `fallback`.
pub fn file_name_or(name: Option<String>, fallback: String) -> (r: String)
    ensures
        r@ == match name {
            Some(n) => n@,
            None => fallback@,
        },
{
    match name {
        Some(n) => n,
        None => fallback,
    }
}

} // verus!
