//! Repositories resolved to a local directory.
use vstd::prelude::*;

use std::path::PathBuf;

use tempfile::TempDir;

verus! {

#[verifier::external_type_specification]
#[verifier::external_body]
pub struct ExTempDir(TempDir);

#[verifier::external_type_specification]
#[verifier::external_body]
pub struct ExPathBuf(PathBuf);

/// Calls `tempfile::TempDir::path` and copies the path into a `PathBuf`, as it is.
/// Trusted for nothing: where the directory lies is up to the machine, so no clause
/// states what the result holds.
#[verifier::external_body]
fn temp_dir_path(temp_dir: &TempDir) -> (r: PathBuf) {
    temp_dir.path().to_path_buf()
}

/// A resolved repository ready for analysis.
/// Holds a temp directory if cloned, ensuring cleanup on drop.
pub struct ResolvedRepo {
    path: PathBuf,
    temp_dir: Option<TempDir>,
}

impl ResolvedRepo {
    /// The local path of the repository.
    pub closed spec fn location(&self) -> PathBuf {
        self.path
    }

    /// Whether the repository lives in a temporary directory that is removed on drop.
    pub closed spec fn is_temporary(&self) -> bool {
        self.temp_dir is Some
    }

    /// Create from a local path (no temp directory).
    pub fn from_local(path: PathBuf) -> (r: Self)
        ensures
            r.location() == path,
            !r.is_temporary(),
    {
        Self { path, temp_dir: None }
    }

    /// Create from a cloned temp directory.
    pub fn from_temp_dir(temp_dir: TempDir) -> (r: Self)
        ensures
            r.is_temporary(),
    {
        let path = temp_dir_path(&temp_dir);
        Self { path, temp_dir: Some(temp_dir) }
    }

    pub fn path(&self) -> (r: &PathBuf)
        ensures
            *r == self.location(),
    {
        &self.path
    }
}

/// Failures while resolving a repository source.
#[derive(Debug, Clone)]
pub enum RepoSourceError {
    TempDir(String),
    GitNotFound(String),
    CloneFailed(String),
}

/// The message that describes an error.
pub open spec fn repo_source_error_message(e: RepoSourceError) -> Seq<char> {
    match e {
        RepoSourceError::TempDir(m) => "failed to create temp directory: "@ + m@,
        RepoSourceError::GitNotFound(m) => "git not found: "@ + m@,
        RepoSourceError::CloneFailed(m) => "git clone failed: "@ + m@,
    }
}

impl RepoSourceError {
    /// The message that describes this error.
    pub fn message(&self) -> (r: String)
        ensures
            r@ == repo_source_error_message(*self),
    {
        match self {
            RepoSourceError::TempDir(m) => String::from_str("failed to create temp directory: ").concat(m.as_str()),
            RepoSourceError::GitNotFound(m) => String::from_str("git not found: ").concat(m.as_str()),
            RepoSourceError::CloneFailed(m) => String::from_str("git clone failed: ").concat(m.as_str()),
        }
    }
}

} // verus!
