//! Remote git repositories.
use vstd::prelude::*;

use crate::text::{after_last, after_last_char, trim_end_matches, trim_suffix_all};

verus! {

/// Git reference for remote repositories.
#[derive(Debug, Clone)]
pub enum GitRef {
    /// Clone the default branch (no --branch flag).
    Default,
    /// Clone a specific branch or tag.
    Named(String),
}

/// A remote git repository that can be cloned.
#[derive(Debug, Clone)]
pub struct RemoteRepo {
    pub url: String,
    pub git_ref: GitRef,
}

/// The suffix that repository URLs may carry.
pub open spec fn git_suffix() -> Seq<char> {
    seq!['.', 'g', 'i', 't']
}

/// Repository name of a URL: its last `/`-separated part once every trailing `.git` is gone.
pub open spec fn repo_name_of(url: Seq<char>) -> Seq<char> {
    after_last(trim_suffix_all(url, git_suffix()), '/')
}

/// Display name of a remote repository: its name, then `@` and the ref when one is named.
pub open spec fn remote_display_name(url: Seq<char>, git_ref: GitRef) -> Seq<char> {
    match git_ref {
        GitRef::Named(r) => repo_name_of(url) + seq!['@'] + r@,
        GitRef::Default => repo_name_of(url),
    }
}

/// The `git` arguments that clone `url` at `git_ref` shallowly, all but the destination
/// directory that follows them.
pub open spec fn clone_args_of(url: Seq<char>, git_ref: GitRef) -> Seq<Seq<char>> {
    seq!["clone"@, "--depth=1"@] + match git_ref {
        GitRef::Named(r) => seq!["--branch"@, r@],
        GitRef::Default => Seq::<Seq<char>>::empty(),
    } + seq![url]
}

/// A repository name never holds a `/`: it is what follows the last one.
pub proof fn law_repo_name_has_no_slash(url: Seq<char>)
    ensures
        !repo_name_of(url).contains('/'),
{
    let t = trim_suffix_all(url, git_suffix());
    crate::text::lemma_last_index_of(t, '/');
    let n = repo_name_of(url);
    if let Some(i) = crate::text::last_index_of(t, '/') {
        assert forall|k: int| 0 <= k < n.len() implies n[k] != '/' by {
            assert(n[k] == t[i + 1 + k]);
        }
    } else {
        assert forall|k: int| 0 <= k < n.len() implies n[k] != '/' by {
            assert(n[k] == t[k]);
        }
    }
}

impl RemoteRepo {
    pub fn new(url: String, git_ref: GitRef) -> (r: Self)
        ensures
            r.url == url,
            r.git_ref == git_ref,
    {
        Self { url, git_ref }
    }

    /// Extract the repository name from the URL.
    pub fn repo_name(&self) -> (r: &str)
        ensures
            r@ == repo_name_of(self.url@),
    {
        proof {
            reveal_strlit(".git");
        }
        assert(".git"@ =~= git_suffix());
        let trimmed = trim_end_matches(self.url.as_str(), ".git");
        after_last_char(trimmed, '/')
    }

    /// Get a display name (repo name with optional ref).
    pub fn display_name(&self) -> (r: String)
        ensures
            r@ == remote_display_name(self.url@, self.git_ref),
    {
        match &self.git_ref {
            GitRef::Named(r) => {
                proof {
                    reveal_strlit("@");
                }
                assert("@"@ =~= seq!['@']);
                let name = String::from_str(self.repo_name());
                name.concat("@").concat(r.as_str())
            },
            GitRef::Default => String::from_str(self.repo_name()),
        }
    }

    /// The arguments of the `git` command that clones this repository, all but the
    /// destination directory that follows them.
    pub fn clone_command_args(&self) -> (r: Vec<String>)
        ensures
            r@.map_values(|a: String| a@) == clone_args_of(self.url@, self.git_ref),
    {
        let mut args: Vec<String> = Vec::new();
        args.push(String::from_str("clone"));
        args.push(String::from_str("--depth=1"));
        if let GitRef::Named(r) = &self.git_ref {
            args.push(String::from_str("--branch"));
            args.push(r.clone());
        }
        args.push(self.url.clone());
        assert(args@.map_values(|a: String| a@) =~= clone_args_of(self.url@, self.git_ref));
        args
    }
}

} // verus!
