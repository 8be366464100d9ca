//! Repository sources as a kind plus an optional git ref.
use vstd::prelude::*;

use crate::cli::repo::remote::repo_name_of;
use crate::cli::repo::source::{is_remote_url_spec, parses_to, source_display_name, source_text, split_ref, RepoSource as SourceEnum};
use crate::pathname::{file_name, file_name_or, path_file_name};
use crate::text::{after_last_char, has_prefix, rfind_char, starts_with, trim_end_matches};

pub use crate::cli::repo::resolved::{RepoSourceError, ResolvedRepo};

verus! {

/// A source of code to analyze - either a local path or a remote git URL.
///
/// Supports `@ref` suffix for specifying branches/tags:
/// - `https://github.com/user/repo@main`
/// - `git@github.com:user/repo@v1.0.0`
#[derive(Debug, Clone)]
pub struct RepoSource {
    kind: SourceKind,
    git_ref: Option<String>,
}

#[derive(Debug, Clone)]
enum SourceKind {
    Local(String),
    Remote(String),
}

/// What a source denotes: whether it is remote, the path or URL, and the git ref.
pub struct SourceView {
    pub remote: bool,
    pub location: Seq<char>,
    pub git_ref: Option<Seq<char>>,
}

/// The source that the text `s` denotes.
pub open spec fn parse_view(s: Seq<char>) -> SourceView {
    if is_remote_url_spec(s) {
        SourceView { remote: true, location: split_ref(s).0, git_ref: split_ref(s).1 }
    } else {
        SourceView { remote: false, location: s, git_ref: None }
    }
}

/// The display name of a source: a local path's final component (the path itself when it
/// has none), or a remote repository's name followed by `@` and the ref when there is one.
pub open spec fn view_display_name(v: SourceView) -> Seq<char> {
    if v.remote {
        match v.git_ref {
            Some(r) => repo_name_of(v.location) + seq!['@'] + r,
            None => repo_name_of(v.location),
        }
    } else {
        match path_file_name(v.location) {
            Some(n) => n,
            None => v.location,
        }
    }
}

/// How a source is written: the path, or the URL with its `@ref` when there is one.
pub open spec fn view_text(v: SourceView) -> Seq<char> {
    match v.git_ref {
        Some(r) => if v.remote { v.location + seq!['@'] + r } else { v.location },
        None => v.location,
    }
}

impl View for RepoSource {
    type V = SourceView;

    closed spec fn view(&self) -> SourceView {
        match self.kind {
            SourceKind::Local(p) => SourceView { remote: false, location: p@, git_ref: self.git_ref.deep_view() },
            SourceKind::Remote(u) => SourceView { remote: true, location: u@, git_ref: self.git_ref.deep_view() },
        }
    }
}

impl RepoSource {
    pub fn is_remote(&self) -> (r: bool)
        ensures
            r == self@.remote,
    {
        matches!(self.kind, SourceKind::Remote(_))
    }

    /// The branch or tag named after `@`, if any.
    pub fn git_ref(&self) -> (r: Option<&str>)
        ensures
            match (r, self@.git_ref) {
                (Some(a), Some(b)) => a@ == b,
                (None, None) => true,
                _ => false,
            },
    {
        match &self.git_ref {
            Some(r) => Some(r.as_str()),
            None => None,
        }
    }

    /// The local path, for a local source.
    pub fn local_path(&self) -> (r: Option<&str>)
        ensures
            match r {
                Some(p) => !self@.remote && p@ == self@.location,
                None => self@.remote,
            },
    {
        match &self.kind {
            SourceKind::Local(p) => Some(p.as_str()),
            SourceKind::Remote(_) => None,
        }
    }

    /// The URL without its `@ref`, for a remote source.
    pub fn remote_url(&self) -> (r: Option<&str>)
        ensures
            match r {
                Some(u) => self@.remote && u@ == self@.location,
                None => !self@.remote,
            },
    {
        match &self.kind {
            SourceKind::Remote(u) => Some(u.as_str()),
            SourceKind::Local(_) => None,
        }
    }

    /// Get a display name for this source (repo name, optionally with ref).
    pub fn display_name(&self) -> (r: String)
        ensures
            r@ == view_display_name(self@),
    {
        match &self.kind {
            SourceKind::Local(path) => file_name_or(file_name(path.as_str()), path.clone()),
            SourceKind::Remote(url) => {
                proof {
                    reveal_strlit(".git");
                    reveal_strlit("@");
                }
                assert(".git"@ =~= crate::cli::repo::remote::git_suffix());
                assert("@"@ =~= seq!['@']);
                let name = after_last_char(trim_end_matches(url.as_str(), ".git"), '/');
                match &self.git_ref {
                    Some(r) => String::from_str(name).concat("@").concat(r.as_str()),
                    None => String::from_str(name),
                }
            },
        }
    }

    /// The source as it is written on the command line.
    pub fn to_text(&self) -> (r: String)
        ensures
            r@ == view_text(self@),
    {
        proof {
            reveal_strlit("@");
        }
        assert("@"@ =~= seq!['@']);
        match &self.kind {
            SourceKind::Local(path) => path.clone(),
            SourceKind::Remote(url) => match &self.git_ref {
                Some(r) => url.clone().concat("@").concat(r.as_str()),
                None => url.clone(),
            },
        }
    }

    /// The arguments of the `git` command that clones a remote source, all but the destination
    /// directory that follows them: `clone --depth=1`, then `--branch` and the ref when one is
    /// named, then the URL.
    pub fn clone_command_args(&self) -> (r: Option<Vec<String>>)
        ensures
            match r {
                Some(args) => self@.remote && args@.map_values(|a: String| a@) == seq!["clone"@, "--depth=1"@]
                    + match self@.git_ref {
                        Some(g) => seq!["--branch"@, g],
                        None => Seq::<Seq<char>>::empty(),
                    } + seq![self@.location],
                None => !self@.remote,
            },
    {
        match &self.kind {
            SourceKind::Local(_) => None,
            SourceKind::Remote(url) => {
                let mut args: Vec<String> = Vec::new();
                args.push(String::from_str("clone"));
                args.push(String::from_str("--depth=1"));
                if let Some(r) = &self.git_ref {
                    args.push(String::from_str("--branch"));
                    args.push(r.clone());
                }
                args.push(url.clone());
                let ghost expected = seq!["clone"@, "--depth=1"@] + match self@.git_ref {
                    Some(g) => seq!["--branch"@, g],
                    None => Seq::<Seq<char>>::empty(),
                } + seq![self@.location];
                assert(args@.map_values(|a: String| a@) =~= expected);
                Some(args)
            },
        }
    }

    /// Parse a source: a remote URL (with an optional `@ref` suffix) or a local path.
    pub fn parse_source(s: &str) -> (r: Self)
        ensures
            r@ == parse_view(s@),
    {
        if is_remote_url(s) {
            let (url, git_ref) = parse_remote_ref(s);
            let git_ref = match git_ref {
                Some(r) => Some(String::from_str(r)),
                None => None,
            };
            RepoSource { kind: SourceKind::Remote(String::from_str(url)), git_ref }
        } else {
            RepoSource { kind: SourceKind::Local(String::from_str(s)), git_ref: None }
        }
    }
}

fn is_remote_url(s: &str) -> (r: bool)
    ensures
        r == is_remote_url_spec(s@),
{
    starts_with(s, "https://") || starts_with(s, "http://") || starts_with(s, "git@")
        || starts_with(s, "ssh://") || starts_with(s, "git://")
}

/// Extract @ref suffix from a remote URL.
/// Returns (url_without_ref, Some(ref)), or the whole URL and None.
///
/// Only looks for @ after the last / to avoid matching git@github.com.
fn parse_remote_ref<'a>(url: &'a str) -> (r: (&'a str, Option<&'a str>))
    ensures
        r.0@ == split_ref(url@).0,
        match (r.1, split_ref(url@).1) {
            (Some(a), Some(b)) => a@ == b,
            (None, None) => true,
            _ => false,
        },
{
    let n = url.unicode_len();
    let last_slash = match rfind_char(url, '/') {
        Some(pos) => pos,
        None => return (url, None),
    };
    match rfind_char(url, '@') {
        Some(at) => {
            if at > last_slash {
                proof {
                    crate::text::lemma_last_index_of(url@, '@');
                }
                (url.substring_char(0, at), Some(url.substring_char(at + 1, n)))
            } else {
                (url, None)
            }
        },
        None => (url, None),
    }
}

/// Writing a parsed source back gives the text it was parsed from.
pub proof fn law_text_round_trip(s: Seq<char>)
    ensures
        view_text(parse_view(s)) == s,
{
    crate::cli::repo::source::lemma_split_ref_rejoins(s);
}

/// A parsed source is remote exactly when its text starts with a git transport prefix, and
/// only a remote source has a ref.
pub proof fn law_remote_iff_url(s: Seq<char>)
    ensures
        parse_view(s).remote == is_remote_url_spec(s),
        parse_view(s).git_ref is Some ==> parse_view(s).remote,
{
}

/// A text that starts with one of the git transport prefixes `https://`, `http://`, `git@`,
/// `ssh://` or `git://` denotes a remote source; any other text denotes the local path that
/// it spells, with no ref.
pub proof fn law_git_prefixes_are_remote(s: Seq<char>)
    ensures
        (has_prefix(s, "https://"@) || has_prefix(s, "http://"@) || has_prefix(s, "git@"@) || has_prefix(
            s,
            "ssh://"@,
        ) || has_prefix(s, "git://"@)) <==> parse_view(s).remote,
        !parse_view(s).remote ==> parse_view(s).location == s && parse_view(s).git_ref is None,
{
}

/// Both forms of a source, parsed from the same text, agree: on being remote, on their display
/// name, and on how they are written.
pub proof fn law_forms_agree(s: Seq<char>, src: SourceEnum)
    requires
        parses_to(s, src),
    ensures
        parse_view(s).remote == src.is_remote_spec(),
        view_display_name(parse_view(s)) == source_display_name(src),
        view_text(parse_view(s)) == source_text(src),
{
    crate::cli::repo::source::lemma_split_ref_rejoins(s);
    if is_remote_url_spec(s) {
        let r = src->Remote_0;
        match split_ref(s).1 {
            Some(g) => {
                assert(r.git_ref matches crate::cli::repo::remote::GitRef::Named(n) && n@ == g);
            },
            None => {
                assert(r.git_ref is Default);
            },
        }
    }
}

impl core::str::FromStr for RepoSource {
    type Err = core::convert::Infallible;

    fn from_str(s: &str) -> (r: Result<Self, Self::Err>)
        ensures
            r matches Ok(src) && src@ == parse_view(s@),
    {
        Ok(Self::parse_source(s))
    }
}

} // verus!
