//! Sources of code to analyze: a local path or a remote git URL.
use vstd::prelude::*;

use crate::cli::repo::remote::{remote_display_name, GitRef, RemoteRepo};
use crate::pathname::{file_name, file_name_or, path_file_name};
use crate::text::{has_prefix, last_index_of, rfind_char, starts_with};

verus! {

/// A source of code to analyze - either a local path or a remote git URL.
///
/// Supports `@ref` suffix for specifying branches/tags on remote URLs:
/// - `https://github.com/user/repo@main`
/// - `git@github.com:user/repo@v1.0.0`
#[derive(Debug, Clone)]
pub enum RepoSource {
    Local(String),
    Remote(RemoteRepo),
}

/// Whether `s` names a remote repository: it starts with a git transport prefix.
pub open spec fn is_remote_url_spec(s: Seq<char>) -> bool {
    ||| has_prefix(s, "https://"@)
    ||| has_prefix(s, "http://"@)
    ||| has_prefix(s, "git@"@)
    ||| has_prefix(s, "ssh://"@)
    ||| has_prefix(s, "git://"@)
}

/// A URL split at an `@ref` suffix: the last `@` that comes after the last `/`.
/// Without such an `@` (or without any `/`) the URL stays whole and there is no ref.
pub open spec fn split_ref(url: Seq<char>) -> (Seq<char>, Option<Seq<char>>) {
    match last_index_of(url, '/') {
        None => (url, None),
        Some(slash) => match last_index_of(url, '@') {
            Some(at) => if at > slash {
                (url.subrange(0, at), Some(url.subrange(at + 1, url.len() as int)))
            } else {
                (url, None)
            },
            None => (url, None),
        },
    }
}

/// The git ref that a parsed `@ref` suffix gives.
pub open spec fn git_ref_of(r: Option<Seq<char>>, g: GitRef) -> bool {
    match (r, g) {
        (Some(x), GitRef::Named(n)) => n@ == x,
        (None, GitRef::Default) => true,
        _ => false,
    }
}

/// `src` is what parsing the text `s` gives.
pub open spec fn parses_to(s: Seq<char>, src: RepoSource) -> bool {
    if is_remote_url_spec(s) {
        &&& src matches RepoSource::Remote(r)
        &&& r.url@ == split_ref(s).0
        &&& git_ref_of(split_ref(s).1, r.git_ref)
    } else {
        src matches RepoSource::Local(p) && p@ == s
    }
}

/// The display name of a source: a local path's final component (the path itself when it
/// has none), or a remote repository's name with its ref.
pub open spec fn source_display_name(src: RepoSource) -> Seq<char> {
    match src {
        RepoSource::Local(p) => match path_file_name(p@) {
            Some(n) => n,
            None => p@,
        },
        RepoSource::Remote(r) => remote_display_name(r.url@, r.git_ref),
    }
}

/// How a source is written: the path, or the URL with its `@ref` when one is named.
pub open spec fn source_text(src: RepoSource) -> Seq<char> {
    match src {
        RepoSource::Local(p) => p@,
        RepoSource::Remote(r) => match r.git_ref {
            GitRef::Named(g) => r.url@ + seq!['@'] + g@,
            GitRef::Default => r.url@,
        },
    }
}

impl RepoSource {
    pub open spec fn is_remote_spec(&self) -> bool {
        self is Remote
    }

    pub fn is_remote(&self) -> (r: bool)
        ensures
            r == self.is_remote_spec(),
    {
        matches!(self, Self::Remote(_))
    }

    /// Get a display name for this source (repo name, optionally with ref).
    pub fn display_name(&self) -> (r: String)
        ensures
            r@ == source_display_name(*self),
    {
        match self {
            Self::Local(path) => file_name_or(file_name(path.as_str()), path.clone()),
            Self::Remote(remote) => remote.display_name(),
        }
    }

    /// The source as it is written on the command line.
    pub fn to_text(&self) -> (r: String)
        ensures
            r@ == source_text(*self),
    {
        match self {
            Self::Local(path) => path.clone(),
            Self::Remote(remote) => match &remote.git_ref {
                GitRef::Named(r) => {
                    proof {
                        reveal_strlit("@");
                    }
                    assert("@"@ =~= seq!['@']);
                    remote.url.clone().concat("@").concat(r.as_str())
                },
                GitRef::Default => remote.url.clone(),
            },
        }
    }

    /// Parse a source: a remote URL (with an optional `@ref` suffix) or a local path.
    pub fn parse_source(s: &str) -> (r: Self)
        ensures
            parses_to(s@, r),
    {
        if is_remote_url(s) {
            let (url, git_ref) = parse_remote_ref(s);
            let git_ref = match git_ref {
                Some(r) => GitRef::Named(String::from_str(r)),
                None => GitRef::Default,
            };
            Self::Remote(RemoteRepo::new(String::from_str(url), git_ref))
        } else {
            Self::Local(String::from_str(s))
        }
    }
}

fn is_remote_url(s: &str) -> (r: bool)
    ensures
        r == is_remote_url_spec(s@),
{
    starts_with(s, "https://") || starts_with(s, "http://") || starts_with(s, "git@")
        || starts_with(s, "ssh://") || starts_with(s, "git://")
}

/// Extract @ref suffix from a remote URL.
/// Returns (url_without_ref, Some(ref)), or the whole URL and None.
///
/// Only looks for @ after the last / to avoid matching git@github.com.
fn parse_remote_ref<'a>(url: &'a str) -> (r: (&'a str, Option<&'a str>))
    ensures
        r.0@ == split_ref(url@).0,
        match (r.1, split_ref(url@).1) {
            (Some(a), Some(b)) => a@ == b,
            (None, None) => true,
            _ => false,
        },
{
    let n = url.unicode_len();
    let last_slash = match rfind_char(url, '/') {
        Some(pos) => pos,
        None => return (url, None),
    };
    match rfind_char(url, '@') {
        Some(at) => {
            if at > last_slash {
                proof {
                    crate::text::lemma_last_index_of(url@, '@');
                }
                (url.substring_char(0, at), Some(url.substring_char(at + 1, n)))
            } else {
                (url, None)
            }
        },
        None => (url, None),
    }
}

/// Splitting a URL at its `@ref` and joining the parts with `@` again gives the URL back.
pub proof fn lemma_split_ref_rejoins(url: Seq<char>)
    ensures
        match split_ref(url).1 {
            Some(r) => split_ref(url).0 + seq!['@'] + r == url,
            None => split_ref(url).0 == url,
        },
{
    crate::text::lemma_last_index_of(url, '@');
    if let Some(r) = split_ref(url).1 {
        let at = last_index_of(url, '@')->0;
        assert(split_ref(url).0 + seq!['@'] + r =~= url);
    }
}

/// A ref split off a URL holds neither `/` nor `@`: it is the text after the last `@`, which
/// comes after the last `/`.
pub proof fn law_ref_has_no_separator(url: Seq<char>)
    ensures
        split_ref(url).1 matches Some(r) ==> !r.contains('/') && !r.contains('@'),
{
    crate::text::lemma_last_index_of(url, '@');
    crate::text::lemma_last_index_of(url, '/');
    if let Some(r) = split_ref(url).1 {
        let at = last_index_of(url, '@')->0;
        assert forall|k: int| 0 <= k < r.len() implies r[k] != '/' && r[k] != '@' by {
            assert(r[k] == url[at + 1 + k]);
        }
    }
}

/// Splitting a URL at its `@ref`: there is a ref exactly when the URL has a `/` and, after
/// its last `/`, an `@`. Without a ref the URL stays whole. With one, the URL part, `@` and the
/// ref give the URL back, the ref holds neither `/` nor `@`, and the URL part holds a `/`.
pub proof fn law_split_ref(url: Seq<char>)
    ensures
        split_ref(url).1 is Some <==> exists|i: int, j: int|
            0 <= i < j < url.len() && url[i] == '/' && url[j] == '@' && forall|k: int|
                j < k < url.len() ==> url[k] != '/',
        split_ref(url).1 is None ==> split_ref(url).0 == url,
        split_ref(url).1 matches Some(r) ==> {
            &&& split_ref(url).0 + seq!['@'] + r == url
            &&& !r.contains('/')
            &&& !r.contains('@')
            &&& split_ref(url).0.contains('/')
        },
{
    crate::text::lemma_last_index_of(url, '@');
    crate::text::lemma_last_index_of(url, '/');
    lemma_split_ref_rejoins(url);
    law_ref_has_no_separator(url);
    if let Some(r) = split_ref(url).1 {
        let slash = last_index_of(url, '/')->0;
        let at = last_index_of(url, '@')->0;
        assert(split_ref(url).0[slash] == '/');
        assert(forall|k: int| at < k < url.len() ==> url[k] != '/');
    } else if exists|i: int, j: int|
        0 <= i < j < url.len() && url[i] == '/' && url[j] == '@' && forall|k: int| j < k < url.len() ==> url[k] != '/' {
        let (i, j) = choose|i: int, j: int|
            0 <= i < j < url.len() && url[i] == '/' && url[j] == '@' && forall|k: int| j < k < url.len() ==> url[k] != '/';
        let slash = last_index_of(url, '/')->0;
        let at = last_index_of(url, '@')->0;
        assert(slash < j);
        assert(at >= j);
    }
}

/// A text that starts with one of the git transport prefixes `https://`, `http://`, `git@`,
/// `ssh://` or `git://` parses to a remote source; any other text parses to the local path
/// that it spells.
pub proof fn law_git_prefixes_are_remote(s: Seq<char>, src: RepoSource)
    requires
        parses_to(s, src),
    ensures
        (has_prefix(s, "https://"@) || has_prefix(s, "http://"@) || has_prefix(s, "git@"@) || has_prefix(
            s,
            "ssh://"@,
        ) || has_prefix(s, "git://"@)) <==> src is Remote,
        src matches RepoSource::Local(p) ==> p@ == s,
{
}

/// Writing a parsed source back gives the text it was parsed from.
pub proof fn law_source_text_round_trip(s: Seq<char>, src: RepoSource)
    requires
        parses_to(s, src),
    ensures
        source_text(src) == s,
{
    lemma_split_ref_rejoins(s);
}

/// A source is remote exactly when its text starts with a git transport prefix.
pub proof fn law_source_remote_iff_url(s: Seq<char>, src: RepoSource)
    requires
        parses_to(s, src),
    ensures
        src.is_remote_spec() == is_remote_url_spec(s),
{
}

impl core::str::FromStr for RepoSource {
    type Err = core::convert::Infallible;

    fn from_str(s: &str) -> (r: Result<Self, Self::Err>)
        ensures
            r matches Ok(src) && parses_to(s@, src),
    {
        Ok(Self::parse_source(s))
    }
}

} // verus!
