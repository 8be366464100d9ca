//! Discovering the crates of a workspace or of a single crate.
use vstd::prelude::*;

pub mod discovery;

use crate::pathname::{file_name, file_name_or, path_file_name};

verus! {

/// Failures while discovering crates.
#[derive(Debug, Clone)]
pub enum WorkspaceError {
    /// No Cargo.toml at the given directory.
    NotFound(String),
    /// The manifest at `path` could not be read.
    Read { path: String, message: String },
    /// The manifest at `path` is not valid TOML of the expected shape.
    Parse { path: String, message: String },
}

impl WorkspaceError {
    /// The message that describes this error.
    pub fn message(&self) -> (r: String)
        ensures
            r@ == match *self {
                WorkspaceError::NotFound(p) => "no Cargo.toml found at "@ + p@,
                WorkspaceError::Read { path, message } => "failed to read "@ + path@,
                WorkspaceError::Parse { path, message } => "failed to parse "@ + path@,
            },
    {
        match self {
            WorkspaceError::NotFound(p) => String::from_str("no Cargo.toml found at ").concat(p.as_str()),
            WorkspaceError::Read { path, .. } => String::from_str("failed to read ").concat(path.as_str()),
            WorkspaceError::Parse { path, .. } => String::from_str("failed to parse ").concat(path.as_str()),
        }
    }
}

/// Information about a crate.
#[derive(Debug, Clone)]
pub struct CrateInfo {
    pub name: String,
    pub path: String,
}

impl View for CrateInfo {
    /// The crate's name and path.
    type V = (Seq<char>, Seq<char>);

    open spec fn view(&self) -> (Seq<char>, Seq<char>) {
        (self.name@, self.path@)
    }
}

/// A discovery failure, by its paths and messages.
pub enum WorkspaceErrorView {
    NotFound(Seq<char>),
    Read(Seq<char>, Seq<char>),
    Parse(Seq<char>, Seq<char>),
}

impl View for WorkspaceError {
    type V = WorkspaceErrorView;

    open spec fn view(&self) -> WorkspaceErrorView {
        match self {
            WorkspaceError::NotFound(p) => WorkspaceErrorView::NotFound(p@),
            WorkspaceError::Read { path, message } => WorkspaceErrorView::Read(path@, message@),
            WorkspaceError::Parse { path, message } => WorkspaceErrorView::Parse(path@, message@),
        }
    }
}

/// The name of a path for display: its final component, or the whole path when it has none.
pub open spec fn path_display_name(path: Seq<char>) -> Seq<char> {
    match path_file_name(path) {
        Some(n) => n,
        None => path,
    }
}

/// The crate at directory `dir` whose manifest names the package `package_name` (if it
/// has a `[package]` table): named after the package, else after the directory.
pub open spec fn crate_info_of(dir: Seq<char>, package_name: Option<Seq<char>>) -> Option<(Seq<char>, Seq<char>)> {
    match package_name {
        Some(n) => Some((n, dir)),
        None => match path_file_name(dir) {
            Some(n) => Some((n, dir)),
            None => None,
        },
    }
}

/// The crate at directory `dir`, named after its package when the manifest has a `[package]`
/// table, else after the directory's final component `dir_name` (no crate without either).
pub fn crate_info_named(dir: &str, package_name: Option<String>, dir_name: Option<String>) -> (r: Option<CrateInfo>)
    ensures
        match r {
            Some(info) => info.path@ == dir@ && info.name@ == match package_name {
                Some(n) => n@,
                None => dir_name->0@,
            } && (package_name is Some || dir_name is Some),
            None => package_name is None && dir_name is None,
        },
{
    let name = match package_name {
        Some(n) => n,
        None => match dir_name {
            Some(n) => n,
            None => return None,
        },
    };
    Some(CrateInfo { name, path: String::from_str(dir) })
}

/// Build the crate info for the directory `dir` from its parsed manifest's package name.
pub fn crate_info_from(dir: &str, package_name: Option<String>) -> (r: Option<CrateInfo>)
    ensures
        match (r, crate_info_of(dir@, package_name.deep_view())) {
            (Some(info), Some((n, p))) => info.name@ == n && info.path@ == p,
            (None, None) => true,
            _ => false,
        },
{
    let dir_name = match package_name {
        Some(_) => None,
        None => file_name(dir),
    };
    crate_info_named(dir, package_name, dir_name)
}

/// Pair each path's display name with the crates discovered there, in order.
/// `discovered[i]` is what discovering `paths[i]` gave; the first failure, in order, is the
/// result when there is one.
pub fn discover_all(paths: &Vec<String>, discovered: Vec<Result<Vec<CrateInfo>, WorkspaceError>>) -> (r: Result<
    Vec<(String, Vec<CrateInfo>)>,
    WorkspaceError,
>)
    requires
        discovered@.len() == paths@.len(),
    ensures
        match r {
            Ok(v) => {
                &&& forall|i: int| 0 <= i < discovered@.len() ==> discovered@[i] is Ok
                &&& v@.len() == paths@.len()
                &&& forall|i: int|
                    0 <= i < v@.len() ==> {
                        &&& (#[trigger] v@[i]).0@ == path_display_name(paths@[i]@)
                        &&& discovered@[i] == Ok::<Vec<CrateInfo>, WorkspaceError>(v@[i].1)
                    }
            },
            Err(e) => exists|i: int|
                0 <= i < discovered@.len() && discovered@[i] == Err::<Vec<CrateInfo>, WorkspaceError>(e)
                    && forall|j: int| 0 <= j < i ==> discovered@[j] is Ok,
        },
{
    let ghost d = discovered@;
    let mut result: Vec<(String, Vec<CrateInfo>)> = Vec::new();
    let mut pending = discovered;
    let n = paths.len();
    let mut i: usize = 0;
    while i < n
        invariant
            n == paths@.len(),
            d.len() == n,
            i <= n,
            pending@ =~= d.subrange(i as int, n as int),
            d == discovered@,
            result@.len() == i,
            forall|j: int| 0 <= j < i ==> d[j] is Ok,
            forall|j: int|
                0 <= j < i ==> {
                    &&& (#[trigger] result@[j]).0@ == path_display_name(paths@[j]@)
                    &&& d[j] == Ok::<Vec<CrateInfo>, WorkspaceError>(result@[j].1)
                },
        decreases n - i,
    {
        let path = &paths[i];
        let name = file_name_or(file_name(path.as_str()), path.clone());
        let next = pending.remove(0);
        assert(next == d[i as int]);
        match next {
            Ok(crates) => {
                result.push((name, crates));
            },
            Err(e) => {
                assert(d[i as int] == Err::<Vec<CrateInfo>, WorkspaceError>(e));
                assert(discovered@[i as int] == Err::<Vec<CrateInfo>, WorkspaceError>(e));
                return Err(e);
            },
        }
        i = i + 1;
    }
    Ok(result)
}

} // verus!
