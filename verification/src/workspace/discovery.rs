//! Crate discovery as a machine that the caller drives with what the file system holds,
//! and what a whole run of it finds.
use vstd::prelude::*;

use crate::pathname::{join, path_join};
use crate::text::contains_char;
use crate::workspace::{crate_info_from, crate_info_of, CrateInfo, WorkspaceError, WorkspaceErrorView};

verus! {

// ============================================================================
// Discovery: the decisions of `discover_crates`, apart from the file system
// ============================================================================

/// How far a discovery has come: what it waits for.
#[derive(Debug, Clone, Copy, PartialEq, Eq, Structural)]
pub enum Phase {
    /// The root manifest.
    AwaitRoot,
    /// The paths that a member's glob pattern matches.
    AwaitGlob,
    /// Whether a candidate member directory holds a crate.
    AwaitProbe,
    /// Whether the root directory itself holds a crate.
    AwaitRootProbe,
    /// Nothing: the result has been handed out.
    Finished,
}

/// What the file system answered to the last action.
#[derive(Debug)]
pub enum DiscoveryEvent {
    /// There is no `Cargo.toml` in the root directory.
    RootMissing,
    /// The root manifest exists but could not be read (with the reason).
    RootUnreadable(String),
    /// The root manifest could not be parsed (with the reason).
    RootInvalid(String),
    /// The root manifest, parsed: the members of its `[workspace]`, if it lists any.
    RootLoaded(Option<Vec<String>>),
    /// The paths that the glob pattern matched, in the order the glob gave them.
    GlobMatched(Vec<String>),
    /// What reading the probed directory's manifest gave: `None` where there is no manifest
    /// that could be read and parsed, else the name in its `[package]` table, if it has one.
    Probed(Option<Option<String>>),
}

/// What the file system must be asked next, or the result.
#[derive(Debug)]
pub enum DiscoveryAction {
    /// Read and parse the manifest at this path.
    LoadRootManifest(String),
    /// Expand this glob pattern.
    ExpandGlob(String),
    /// If this path is a directory with a `Cargo.toml`, read and parse that manifest.
    ProbeMember(String),
    /// Read and parse the manifest of this directory.
    ProbeRoot(String),
    /// The discovery is over.
    Done(Result<Vec<CrateInfo>, WorkspaceError>),
}

/// The strings of a vector, as character sequences.
pub open spec fn strings_view(v: Seq<String>) -> Seq<Seq<char>> {
    v.map_values(|s: String| s@)
}

/// The crates of a vector, as (name, path) pairs.
pub open spec fn crates_view(v: Seq<CrateInfo>) -> Seq<(Seq<char>, Seq<char>)> {
    v.map_values(|c: CrateInfo| c@)
}

pub enum DiscoveryEventView {
    RootMissing,
    RootUnreadable(Seq<char>),
    RootInvalid(Seq<char>),
    RootLoaded(Option<Seq<Seq<char>>>),
    GlobMatched(Seq<Seq<char>>),
    Probed(Option<Option<Seq<char>>>),
}

impl View for DiscoveryEvent {
    type V = DiscoveryEventView;

    open spec fn view(&self) -> DiscoveryEventView {
        match self {
            DiscoveryEvent::RootMissing => DiscoveryEventView::RootMissing,
            DiscoveryEvent::RootUnreadable(m) => DiscoveryEventView::RootUnreadable(m@),
            DiscoveryEvent::RootInvalid(m) => DiscoveryEventView::RootInvalid(m@),
            DiscoveryEvent::RootLoaded(ms) => DiscoveryEventView::RootLoaded(
                match ms {
                    Some(v) => Some(strings_view(v@)),
                    None => None,
                },
            ),
            DiscoveryEvent::GlobMatched(ps) => DiscoveryEventView::GlobMatched(strings_view(ps@)),
            DiscoveryEvent::Probed(p) => DiscoveryEventView::Probed(p.deep_view()),
        }
    }
}

pub enum DiscoveryActionView {
    LoadRootManifest(Seq<char>),
    ExpandGlob(Seq<char>),
    ProbeMember(Seq<char>),
    ProbeRoot(Seq<char>),
    Done(Result<Seq<(Seq<char>, Seq<char>)>, WorkspaceErrorView>),
}

impl View for DiscoveryAction {
    type V = DiscoveryActionView;

    open spec fn view(&self) -> DiscoveryActionView {
        match self {
            DiscoveryAction::LoadRootManifest(p) => DiscoveryActionView::LoadRootManifest(p@),
            DiscoveryAction::ExpandGlob(p) => DiscoveryActionView::ExpandGlob(p@),
            DiscoveryAction::ProbeMember(p) => DiscoveryActionView::ProbeMember(p@),
            DiscoveryAction::ProbeRoot(p) => DiscoveryActionView::ProbeRoot(p@),
            DiscoveryAction::Done(r) => DiscoveryActionView::Done(
                match r {
                    Ok(v) => Ok(crates_view(v@)),
                    Err(e) => Err(e@),
                },
            ),
        }
    }
}

/// The state of a discovery.
pub struct DiscoveryView {
    /// The directory whose crates are discovered.
    pub root: Seq<char>,
    /// The workspace members that the root manifest lists.
    pub members: Seq<Seq<char>>,
    /// How many members have been taken up.
    pub next_member: int,
    /// The candidate directories of the member taken up last.
    pub candidates: Seq<Seq<char>>,
    /// How many of those have been probed.
    pub next_candidate: int,
    /// The crates found so far, in order.
    pub found: Seq<(Seq<char>, Seq<char>)>,
    pub phase: Phase,
}

/// The path of a directory's manifest.
pub open spec fn manifest_path(dir: Seq<char>) -> Seq<char> {
    path_join(dir, "Cargo.toml"@)
}

/// The crate that probing `dir` finds, given what reading its manifest gave: none without
/// a manifest, else the crate at `dir` named after the package, or after `dir` itself.
pub open spec fn probe_crate(dir: Seq<char>, p: Option<Option<Seq<char>>>) -> Option<(Seq<char>, Seq<char>)> {
    match p {
        Some(package_name) => crate_info_of(dir, package_name),
        None => None,
    }
}

/// A discovery that has just started at `root`: it waits for the root manifest.
pub open spec fn start_view(root: Seq<char>) -> DiscoveryView {
    DiscoveryView {
        root,
        members: Seq::empty(),
        next_member: 0,
        candidates: Seq::empty(),
        next_candidate: 0,
        found: Seq::empty(),
        phase: Phase::AwaitRoot,
    }
}

/// The crate of a probe, as a sequence of none or one.
pub open spec fn probed_seq(c: Option<(Seq<char>, Seq<char>)>) -> Seq<(Seq<char>, Seq<char>)> {
    match c {
        Some(x) => seq![x],
        None => Seq::empty(),
    }
}

/// Take up the next member: a glob pattern is expanded, a plain member is its one candidate.
/// With no member left, fall back to the root itself when nothing was found, else finish.
pub open spec fn take_next_member(v: DiscoveryView) -> (DiscoveryView, DiscoveryActionView) {
    if 0 <= v.next_member < v.members.len() {
        let m = v.members[v.next_member];
        let p = path_join(v.root, m);
        if m.contains('*') {
            (
                DiscoveryView {
                    next_member: v.next_member + 1,
                    candidates: Seq::empty(),
                    next_candidate: 0,
                    phase: Phase::AwaitGlob,
                    ..v
                },
                DiscoveryActionView::ExpandGlob(p),
            )
        } else {
            (
                DiscoveryView {
                    next_member: v.next_member + 1,
                    candidates: seq![p],
                    next_candidate: 0,
                    phase: Phase::AwaitProbe,
                    ..v
                },
                DiscoveryActionView::ProbeMember(p),
            )
        }
    } else if v.found.len() == 0 {
        (DiscoveryView { phase: Phase::AwaitRootProbe, ..v }, DiscoveryActionView::ProbeRoot(v.root))
    } else {
        (
            DiscoveryView { phase: Phase::Finished, found: Seq::empty(), ..v },
            DiscoveryActionView::Done(Ok(v.found)),
        )
    }
}

/// Probe the next candidate of the current member, or take up the next member.
pub open spec fn take_next_candidate(v: DiscoveryView) -> (DiscoveryView, DiscoveryActionView) {
    if 0 <= v.next_candidate < v.candidates.len() {
        (
            DiscoveryView { phase: Phase::AwaitProbe, ..v },
            DiscoveryActionView::ProbeMember(v.candidates[v.next_candidate]),
        )
    } else {
        take_next_member(v)
    }
}

/// Whether a discovery in `phase` waits for an event like `e`.
pub open spec fn accepts(phase: Phase, e: DiscoveryEventView) -> bool {
    match e {
        DiscoveryEventView::RootMissing => phase == Phase::AwaitRoot,
        DiscoveryEventView::RootUnreadable(_) => phase == Phase::AwaitRoot,
        DiscoveryEventView::RootInvalid(_) => phase == Phase::AwaitRoot,
        DiscoveryEventView::RootLoaded(_) => phase == Phase::AwaitRoot,
        DiscoveryEventView::GlobMatched(_) => phase == Phase::AwaitGlob,
        DiscoveryEventView::Probed(_) => phase == Phase::AwaitProbe || phase == Phase::AwaitRootProbe,
    }
}

/// The state and action that follow `v` on the event `e` (which `v` accepts).
pub open spec fn discovery_step(v: DiscoveryView, e: DiscoveryEventView) -> (DiscoveryView, DiscoveryActionView) {
    let finished = DiscoveryView { phase: Phase::Finished, found: Seq::empty(), ..v };
    match e {
        DiscoveryEventView::RootMissing => (
            finished,
            DiscoveryActionView::Done(Err(WorkspaceErrorView::NotFound(v.root))),
        ),
        DiscoveryEventView::RootUnreadable(m) => (
            finished,
            DiscoveryActionView::Done(Err(WorkspaceErrorView::Read(manifest_path(v.root), m))),
        ),
        DiscoveryEventView::RootInvalid(m) => (
            finished,
            DiscoveryActionView::Done(Err(WorkspaceErrorView::Parse(manifest_path(v.root), m))),
        ),
        DiscoveryEventView::RootLoaded(ms) => take_next_member(
            DiscoveryView {
                members: match ms {
                    Some(s) => s,
                    None => Seq::empty(),
                },
                next_member: 0,
                ..v
            },
        ),
        DiscoveryEventView::GlobMatched(ps) => take_next_candidate(
            DiscoveryView { candidates: ps, next_candidate: 0, ..v },
        ),
        DiscoveryEventView::Probed(p) => if v.phase == Phase::AwaitRootProbe {
            (finished, DiscoveryActionView::Done(Ok(probed_seq(probe_crate(v.root, p)))))
        } else {
            take_next_candidate(
                DiscoveryView {
                    found: v.found + probed_seq(probe_crate(v.candidates[v.next_candidate], p)),
                    next_candidate: v.next_candidate + 1,
                    ..v
                },
            )
        },
    }
}

/// The discovery of the crates in a directory, as a machine that the caller drives: it
/// answers each action with what the file system holds, until the action is `Done`.
pub struct Discovery {
    root: String,
    members: Vec<String>,
    next_member: usize,
    candidates: Vec<String>,
    next_candidate: usize,
    found: Vec<CrateInfo>,
    phase: Phase,
}

impl View for Discovery {
    type V = DiscoveryView;

    closed spec fn view(&self) -> DiscoveryView {
        DiscoveryView {
            root: self.root@,
            members: strings_view(self.members@),
            next_member: self.next_member as int,
            candidates: strings_view(self.candidates@),
            next_candidate: self.next_candidate as int,
            found: crates_view(self.found@),
            phase: self.phase,
        }
    }
}

impl Discovery {
    /// The indices stay within their sequences, and a probe is pending only for a candidate.
    #[verifier::type_invariant]
    spec fn well_formed(self) -> bool {
        &&& self.next_member <= self.members@.len()
        &&& self.next_candidate <= self.candidates@.len()
        &&& self.phase == Phase::AwaitProbe ==> self.next_candidate < self.candidates@.len()
    }

    /// Start discovering the crates in `root`: first its manifest is loaded.
    pub fn start(root: String) -> (r: (Self, DiscoveryAction))
        ensures
            r.0@ == start_view(root@),
            r.1@ == DiscoveryActionView::LoadRootManifest(manifest_path(root@)),
    {
        let manifest = join(root.as_str(), "Cargo.toml");
        let d = Discovery {
            root,
            members: Vec::new(),
            next_member: 0,
            candidates: Vec::new(),
            next_candidate: 0,
            found: Vec::new(),
            phase: Phase::AwaitRoot,
        };
        assert(d@.members =~= Seq::<Seq<char>>::empty());
        assert(d@.candidates =~= Seq::<Seq<char>>::empty());
        assert(d@.found =~= Seq::<(Seq<char>, Seq<char>)>::empty());
        (d, DiscoveryAction::LoadRootManifest(manifest))
    }

    /// What the discovery waits for.
    pub fn phase(&self) -> (r: Phase)
        ensures
            r == self@.phase,
    {
        self.phase
    }

    /// Whether the discovery waits for an event like `event`.
    pub fn accepts(&self, event: &DiscoveryEvent) -> (r: bool)
        ensures
            r == accepts(self@.phase, event@),
    {
        match event {
            DiscoveryEvent::RootMissing => self.phase == Phase::AwaitRoot,
            DiscoveryEvent::RootUnreadable(_) => self.phase == Phase::AwaitRoot,
            DiscoveryEvent::RootInvalid(_) => self.phase == Phase::AwaitRoot,
            DiscoveryEvent::RootLoaded(_) => self.phase == Phase::AwaitRoot,
            DiscoveryEvent::GlobMatched(_) => self.phase == Phase::AwaitGlob,
            DiscoveryEvent::Probed(_) => self.phase == Phase::AwaitProbe || self.phase == Phase::AwaitRootProbe,
        }
    }

    fn finish(self, result: Result<Vec<CrateInfo>, WorkspaceError>) -> (r: (Self, DiscoveryAction))
        ensures
            r.0@ == (DiscoveryView { phase: Phase::Finished, found: Seq::empty(), ..self@ }),
            r.1@ == DiscoveryActionView::Done(
                match result {
                    Ok(v) => Ok(crates_view(v@)),
                    Err(e) => Err(e@),
                },
            ),
    {
        proof {
            use_type_invariant(&self);
        }
        let d = Discovery {
            root: self.root,
            members: self.members,
            next_member: self.next_member,
            candidates: self.candidates,
            next_candidate: self.next_candidate,
            found: Vec::new(),
            phase: Phase::Finished,
        };
        assert(d@.found =~= Seq::<(Seq<char>, Seq<char>)>::empty());
        assert(d@ == (DiscoveryView { phase: Phase::Finished, found: Seq::empty(), ..self@ }));
        (d, DiscoveryAction::Done(result))
    }

    fn take_next_member(self) -> (r: (Self, DiscoveryAction))
        ensures
            (r.0@, r.1@) == take_next_member(self@),
    {
        proof {
            use_type_invariant(&self);
        }
        if self.next_member < self.members.len() {
            let p = join(self.root.as_str(), self.members[self.next_member].as_str());
            let glob = contains_char(self.members[self.next_member].as_str(), '*');
            let mut candidates: Vec<String> = Vec::new();
            let phase = if glob {
                Phase::AwaitGlob
            } else {
                candidates.push(p.clone());
                Phase::AwaitProbe
            };
            let d = Discovery {
                root: self.root,
                members: self.members,
                next_member: self.next_member + 1,
                candidates,
                next_candidate: 0,
                found: self.found,
                phase,
            };
            assert(strings_view(candidates@) =~= if glob { Seq::<Seq<char>>::empty() } else { seq![p@] });
            if glob {
                (d, DiscoveryAction::ExpandGlob(p))
            } else {
                (d, DiscoveryAction::ProbeMember(p))
            }
        } else if self.found.len() == 0 {
            let root = self.root.clone();
            let d = Discovery { phase: Phase::AwaitRootProbe, ..self };
            (d, DiscoveryAction::ProbeRoot(root))
        } else {
            let found = self.found;
            let d = Discovery {
                root: self.root,
                members: self.members,
                next_member: self.next_member,
                candidates: self.candidates,
                next_candidate: self.next_candidate,
                found: Vec::new(),
                phase: Phase::Finished,
            };
            assert(d@.found =~= Seq::<(Seq<char>, Seq<char>)>::empty());
            (d, DiscoveryAction::Done(Ok(found)))
        }
    }

    fn take_next_candidate(self) -> (r: (Self, DiscoveryAction))
        ensures
            (r.0@, r.1@) == take_next_candidate(self@),
    {
        proof {
            use_type_invariant(&self);
        }
        if self.next_candidate < self.candidates.len() {
            let p = self.candidates[self.next_candidate].clone();
            let d = Discovery { phase: Phase::AwaitProbe, ..self };
            (d, DiscoveryAction::ProbeMember(p))
        } else {
            self.take_next_member()
        }
    }

    /// Advance the discovery by what the file system answered to its last action.
    pub fn step(self, event: DiscoveryEvent) -> (r: (Self, DiscoveryAction))
        requires
            accepts(self@.phase, event@),
        ensures
            (r.0@, r.1@) == discovery_step(self@, event@),
    {
        proof {
            use_type_invariant(&self);
        }
        match event {
            DiscoveryEvent::RootMissing => {
                let root = self.root.clone();
                self.finish(Err(WorkspaceError::NotFound(root)))
            },
            DiscoveryEvent::RootUnreadable(message) => {
                let path = join(self.root.as_str(), "Cargo.toml");
                self.finish(Err(WorkspaceError::Read { path, message }))
            },
            DiscoveryEvent::RootInvalid(message) => {
                let path = join(self.root.as_str(), "Cargo.toml");
                self.finish(Err(WorkspaceError::Parse { path, message }))
            },
            DiscoveryEvent::RootLoaded(members) => {
                let members = match members {
                    Some(m) => m,
                    None => Vec::new(),
                };
                let d = Discovery { members, next_member: 0, ..self };
                proof {
                    if event@ matches DiscoveryEventView::RootLoaded(None) {
                        assert(d@.members =~= Seq::<Seq<char>>::empty());
                    }
                }
                d.take_next_member()
            },
            DiscoveryEvent::GlobMatched(paths) => {
                let d = Discovery { candidates: paths, next_candidate: 0, ..self };
                d.take_next_candidate()
            },
            DiscoveryEvent::Probed(p) => {
                if self.phase == Phase::AwaitRootProbe {
                    let info = match p {
                        Some(package_name) => crate_info_from(self.root.as_str(), package_name),
                        None => None,
                    };
                    let mut found: Vec<CrateInfo> = Vec::new();
                    if let Some(info) = info {
                        found.push(info);
                    }
                    proof {
                        assert(crates_view(found@) =~= probed_seq(probe_crate(self@.root, event@->Probed_0)));
                    }
                    self.finish(Ok(found))
                } else {
                    assert(event@ is Probed);
                    assert(self.phase == Phase::AwaitProbe);
                    let count = self.candidates.len();
                    assert(self.next_candidate < count);
                    let next_candidate = self.next_candidate + 1;
                    let info = match p {
                        Some(package_name) => crate_info_from(self.candidates[self.next_candidate].as_str(), package_name),
                        None => None,
                    };
                    let ghost dir = self@.candidates[self.next_candidate as int];
                    let mut found = self.found;
                    let ghost before = found@;
                    if let Some(info) = info {
                        found.push(info);
                    }
                    proof {
                        assert(crates_view(found@) =~= crates_view(before) + probed_seq(probe_crate(dir, event@->Probed_0)));
                    }
                    let d = Discovery {
                        root: self.root,
                        members: self.members,
                        next_member: self.next_member,
                        candidates: self.candidates,
                        next_candidate,
                        found,
                        // replaced by the next action's phase
                        phase: Phase::AwaitGlob,
                    };
                    d.take_next_candidate()
                }
            },
        }
    }
}

// ============================================================================
// What a whole discovery finds
// ============================================================================

/// What the file system holds, as far as a discovery asks it.
pub struct FileSystemView {
    /// What loading the root manifest gives: one of the root events.
    pub root_answer: DiscoveryEventView,
    /// The paths that a glob pattern matches, in the order the glob gives them.
    pub glob: spec_fn(Seq<char>) -> Seq<Seq<char>>,
    /// Whether a path is a directory with a `Cargo.toml` in it.
    pub is_crate_dir: spec_fn(Seq<char>) -> bool,
    /// What reading and parsing a directory's manifest gives: `None` where that fails, else
    /// the name in its `[package]` table, if it has one.
    pub manifest: spec_fn(Seq<char>) -> Option<Option<Seq<char>>>,
}

/// What probing a candidate member path gives: its manifest, if it is a crate directory.
pub open spec fn member_probe(fs: FileSystemView, dir: Seq<char>) -> Option<Option<Seq<char>>> {
    if (fs.is_crate_dir)(dir) {
        (fs.manifest)(dir)
    } else {
        None
    }
}

/// Whether `e` answers the loading of the root manifest.
pub open spec fn is_root_answer(e: DiscoveryEventView) -> bool {
    ||| e is RootMissing
    ||| e is RootUnreadable
    ||| e is RootInvalid
    ||| e is RootLoaded
}

/// What the file system `fs` answers to the action `a`.
pub open spec fn answer(fs: FileSystemView, a: DiscoveryActionView) -> DiscoveryEventView {
    match a {
        DiscoveryActionView::ExpandGlob(p) => DiscoveryEventView::GlobMatched((fs.glob)(p)),
        DiscoveryActionView::ProbeMember(d) => DiscoveryEventView::Probed(member_probe(fs, d)),
        DiscoveryActionView::ProbeRoot(d) => DiscoveryEventView::Probed((fs.manifest)(d)),
        _ => fs.root_answer,
    }
}

/// The crates that the candidate paths `cs` hold, in order.
pub open spec fn candidate_crates(cs: Seq<Seq<char>>, fs: FileSystemView) -> Seq<(Seq<char>, Seq<char>)>
    decreases cs.len(),
{
    if cs.len() == 0 {
        Seq::empty()
    } else {
        probed_seq(probe_crate(cs[0], member_probe(fs, cs[0]))) + candidate_crates(cs.drop_first(), fs)
    }
}

/// The candidate paths of the member `m` of the workspace at `root`: what its glob pattern
/// matches, or the one path it names.
pub open spec fn member_candidates(root: Seq<char>, m: Seq<char>, fs: FileSystemView) -> Seq<Seq<char>> {
    if m.contains('*') {
        (fs.glob)(path_join(root, m))
    } else {
        seq![path_join(root, m)]
    }
}

/// The crates that the members `ms` of the workspace at `root` hold, member after member.
pub open spec fn members_crates(root: Seq<char>, ms: Seq<Seq<char>>, fs: FileSystemView) -> Seq<(Seq<char>, Seq<char>)>
    decreases ms.len(),
{
    if ms.len() == 0 {
        Seq::empty()
    } else {
        candidate_crates(member_candidates(root, ms[0], fs), fs) + members_crates(root, ms.drop_first(), fs)
    }
}

/// The result once the members have given `found`: those crates, or else the root's own.
pub open spec fn crates_or_root(root: Seq<char>, found: Seq<(Seq<char>, Seq<char>)>, fs: FileSystemView) -> Result<
    Seq<(Seq<char>, Seq<char>)>,
    WorkspaceErrorView,
> {
    if found.len() == 0 {
        Ok(probed_seq(probe_crate(root, (fs.manifest)(root))))
    } else {
        Ok(found)
    }
}

/// The members that a root manifest lists: none without a `[workspace]` member list.
pub open spec fn members_listed(ms: Option<Seq<Seq<char>>>) -> Seq<Seq<char>> {
    match ms {
        Some(s) => s,
        None => Seq::empty(),
    }
}

/// What discovering the crates of `root` gives on the file system `fs`: a root without a
/// readable, parsable manifest is an error; otherwise the crates of the workspace members in
/// order, or, when they hold none, the crate at the root itself.
pub open spec fn discovered(root: Seq<char>, fs: FileSystemView) -> Result<Seq<(Seq<char>, Seq<char>)>, WorkspaceErrorView> {
    match fs.root_answer {
        DiscoveryEventView::RootMissing => Err(WorkspaceErrorView::NotFound(root)),
        DiscoveryEventView::RootUnreadable(m) => Err(WorkspaceErrorView::Read(manifest_path(root), m)),
        DiscoveryEventView::RootInvalid(m) => Err(WorkspaceErrorView::Parse(manifest_path(root), m)),
        DiscoveryEventView::RootLoaded(ms) => crates_or_root(root, members_crates(root, members_listed(ms), fs), fs),
        _ => Ok(Seq::empty()),
    }
}

/// The indices of a discovery state stay within their sequences, and a probe is pending only
/// for a candidate.
pub open spec fn view_wf(v: DiscoveryView) -> bool {
    &&& 0 <= v.next_member <= v.members.len()
    &&& 0 <= v.next_candidate <= v.candidates.len()
    &&& v.phase == Phase::AwaitProbe ==> v.next_candidate < v.candidates.len()
}

/// How far a phase is from the end.
pub open spec fn phase_rank(p: Phase) -> int {
    match p {
        Phase::AwaitRoot => 4,
        Phase::AwaitGlob => 3,
        Phase::AwaitProbe => 2,
        Phase::AwaitRootProbe => 1,
        Phase::Finished => 0,
    }
}

/// The result of driving the discovery from state `v` and pending action `a` with the answers
/// of `fs`, or `None` if an answer is not one the discovery waits for.
pub open spec fn run_discovery(v: DiscoveryView, a: DiscoveryActionView, fs: FileSystemView) -> Option<
    Result<Seq<(Seq<char>, Seq<char>)>, WorkspaceErrorView>,
>
    decreases (if v.phase == Phase::AwaitRoot {
        1int
    } else {
        0int
    }), v.members.len() - v.next_member, phase_rank(v.phase), v.candidates.len() - v.next_candidate,
    when view_wf(v)
{
    match a {
        DiscoveryActionView::Done(r) => Some(r),
        _ => {
            let e = answer(fs, a);
            if accepts(v.phase, e) {
                let (v2, a2) = discovery_step(v, e);
                run_discovery(v2, a2, fs)
            } else {
                None
            }
        },
    }
}

/// Taking up the next member from a well-formed state gives the crates of the members not yet
/// taken up (or the root's, when there are none at all).
proof fn lemma_take_next_member(v: DiscoveryView, fs: FileSystemView)
    requires
        view_wf(v),
    ensures
        ({
            let (v2, a2) = take_next_member(v);
            run_discovery(v2, a2, fs) == Some(
                crates_or_root(
                    v.root,
                    v.found + members_crates(v.root, v.members.subrange(v.next_member, v.members.len() as int), fs),
                    fs,
                ),
            )
        }),
    decreases v.members.len() - v.next_member, v.candidates.len() - v.next_candidate, 0int,
{
    let rest = v.members.subrange(v.next_member, v.members.len() as int);
    let (v2, a2) = take_next_member(v);
    if v.next_member < v.members.len() {
        let m = v.members[v.next_member];
        let p = path_join(v.root, m);
        let later = v.members.subrange(v.next_member + 1, v.members.len() as int);
        assert(rest.drop_first() =~= later);
        assert(rest[0] == m);
        if m.contains('*') {
            let e = answer(fs, a2);
            assert(v2 == DiscoveryView {
                next_member: v.next_member + 1,
                candidates: Seq::empty(),
                next_candidate: 0,
                phase: Phase::AwaitGlob,
                ..v
            });
            let v3 = DiscoveryView { candidates: (fs.glob)(p), next_candidate: 0, ..v2 };
            assert(discovery_step(v2, e) == take_next_candidate(v3));
            lemma_take_next_candidate(v3, fs);
            assert(v3.candidates.subrange(0, v3.candidates.len() as int) =~= v3.candidates);
            assert(v.found + members_crates(v.root, rest, fs) =~= v3.found + candidate_crates(
                v3.candidates.subrange(0, v3.candidates.len() as int),
                fs,
            ) + members_crates(v3.root, later, fs));
        } else {
            let e = answer(fs, a2);
            let v3 = DiscoveryView {
                found: v2.found + probed_seq(probe_crate(p, member_probe(fs, p))),
                next_candidate: 1,
                ..v2
            };
            // the phase of the state passed on is replaced, whatever it is
            let v3 = DiscoveryView { phase: Phase::AwaitGlob, ..v3 };
            assert(discovery_step(v2, e) == take_next_candidate(v3));
            lemma_take_next_candidate(v3, fs);
            assert(v3.candidates.subrange(1, 1) =~= Seq::<Seq<char>>::empty());
            assert(seq![p].drop_first() =~= Seq::<Seq<char>>::empty());
            assert(candidate_crates(seq![p], fs) =~= probed_seq(probe_crate(p, member_probe(fs, p))));
            assert(v.found + members_crates(v.root, rest, fs) =~= v3.found + candidate_crates(
                v3.candidates.subrange(1, 1),
                fs,
            ) + members_crates(v3.root, later, fs));
        }
    } else {
        assert(rest =~= Seq::<Seq<char>>::empty());
        assert(v.found + members_crates(v.root, rest, fs) =~= v.found);
        if v.found.len() == 0 {
            let e = answer(fs, a2);
            let (v3, a3) = discovery_step(v2, e);
            assert(run_discovery(v3, a3, fs) == Some(crates_or_root(v.root, v.found, fs)));
        }
    }
}

/// Probing the remaining candidates and then the remaining members from a well-formed state
/// gives their crates, in order, after those found so far.
proof fn lemma_take_next_candidate(v: DiscoveryView, fs: FileSystemView)
    requires
        view_wf(v),
    ensures
        ({
            let (v2, a2) = take_next_candidate(v);
            run_discovery(v2, a2, fs) == Some(
                crates_or_root(
                    v.root,
                    v.found + candidate_crates(v.candidates.subrange(v.next_candidate, v.candidates.len() as int), fs)
                        + members_crates(v.root, v.members.subrange(v.next_member, v.members.len() as int), fs),
                    fs,
                ),
            )
        }),
    decreases v.members.len() - v.next_member, v.candidates.len() - v.next_candidate, 1int,
{
    let pending = v.candidates.subrange(v.next_candidate, v.candidates.len() as int);
    let rest = v.members.subrange(v.next_member, v.members.len() as int);
    if v.next_candidate < v.candidates.len() {
        let c = v.candidates[v.next_candidate];
        let (v2, a2) = take_next_candidate(v);
        let e = answer(fs, a2);
        let v3 = DiscoveryView {
            found: v2.found + probed_seq(probe_crate(c, member_probe(fs, c))),
            next_candidate: v.next_candidate + 1,
            ..v2
        };
        // the phase of the state passed on is replaced, whatever it is
        let v3 = DiscoveryView { phase: Phase::AwaitGlob, ..v3 };
        assert(discovery_step(v2, e) == take_next_candidate(v3));
        lemma_take_next_candidate(v3, fs);
        assert(pending.drop_first() =~= v.candidates.subrange(v.next_candidate + 1, v.candidates.len() as int));
        assert(pending[0] == c);
        assert(v.found + candidate_crates(pending, fs) + members_crates(v.root, rest, fs) =~= v3.found
            + candidate_crates(v3.candidates.subrange(v3.next_candidate, v3.candidates.len() as int), fs)
            + members_crates(v3.root, v3.members.subrange(v3.next_member, v3.members.len() as int), fs));
    } else {
        assert(pending =~= Seq::<Seq<char>>::empty());
        lemma_take_next_member(v, fs);
        assert(v.found + candidate_crates(pending, fs) + members_crates(v.root, rest, fs) =~= v.found
            + members_crates(v.root, rest, fs));
    }
}

/// A discovery driven by the answers of a file system finds what `discovered` says: the error
/// of a root without a readable, parsable manifest; else the crates of the workspace members,
/// member after member and each member's candidates in order; else the root's own crate.
pub proof fn law_discovery_finds(root: Seq<char>, fs: FileSystemView)
    requires
        is_root_answer(fs.root_answer),
    ensures
        run_discovery(start_view(root), DiscoveryActionView::LoadRootManifest(manifest_path(root)), fs)
            == Some(discovered(root, fs)),
{
    let v0 = start_view(root);
    let a0 = DiscoveryActionView::LoadRootManifest(manifest_path(root));
    let e = fs.root_answer;
    assert(answer(fs, a0) == e);
    if let DiscoveryEventView::RootLoaded(ms) = e {
        let members = match ms {
            Some(s) => s,
            None => Seq::empty(),
        };
        let v1 = DiscoveryView { members, next_member: 0, ..v0 };
        assert(discovery_step(v0, e) == take_next_member(v1));
        lemma_take_next_member(v1, fs);
        assert(members.subrange(0, members.len() as int) =~= members);
        assert(v1.found + members_crates(root, members, fs) =~= members_crates(root, members, fs));
    }
}

/// `c` is the crate that probing its directory finds: the directory's manifest could be read
/// and parsed, and `c` is named after its package, else after the directory's final component.
pub open spec fn found_at_its_directory(c: (Seq<char>, Seq<char>), fs: FileSystemView) -> bool {
    (fs.manifest)(c.1) matches Some(package_name) && crate_info_of(c.1, package_name) == Some(c)
}

/// The crates found among candidate paths lie in crate directories and are named as their
/// manifests say.
proof fn lemma_candidate_crates_found(cs: Seq<Seq<char>>, fs: FileSystemView)
    ensures
        forall|i: int|
            0 <= i < candidate_crates(cs, fs).len() ==> found_at_its_directory(#[trigger] candidate_crates(cs, fs)[i], fs)
                && (fs.is_crate_dir)(candidate_crates(cs, fs)[i].1),
    decreases cs.len(),
{
    if cs.len() > 0 {
        lemma_candidate_crates_found(cs.drop_first(), fs);
        let head = probed_seq(probe_crate(cs[0], member_probe(fs, cs[0])));
        let tail = candidate_crates(cs.drop_first(), fs);
        assert forall|i: int| 0 <= i < candidate_crates(cs, fs).len() implies found_at_its_directory(
            #[trigger] candidate_crates(cs, fs)[i],
            fs,
        ) && (fs.is_crate_dir)(candidate_crates(cs, fs)[i].1) by {
            if i < head.len() {
                assert(candidate_crates(cs, fs)[i] == head[i]);
            } else {
                assert(candidate_crates(cs, fs)[i] == tail[i - head.len()]);
            }
        }
    }
}

/// The crates found among the members of a workspace lie in crate directories and are named
/// as their manifests say.
proof fn lemma_members_crates_found(root: Seq<char>, ms: Seq<Seq<char>>, fs: FileSystemView)
    ensures
        forall|i: int|
            0 <= i < members_crates(root, ms, fs).len() ==> found_at_its_directory(
                #[trigger] members_crates(root, ms, fs)[i],
                fs,
            ) && (fs.is_crate_dir)(members_crates(root, ms, fs)[i].1),
    decreases ms.len(),
{
    if ms.len() > 0 {
        lemma_members_crates_found(root, ms.drop_first(), fs);
        let head = candidate_crates(member_candidates(root, ms[0], fs), fs);
        let tail = members_crates(root, ms.drop_first(), fs);
        lemma_candidate_crates_found(member_candidates(root, ms[0], fs), fs);
        assert forall|i: int| 0 <= i < members_crates(root, ms, fs).len() implies found_at_its_directory(
            #[trigger] members_crates(root, ms, fs)[i],
            fs,
        ) && (fs.is_crate_dir)(members_crates(root, ms, fs)[i].1) by {
            if i < head.len() {
                assert(members_crates(root, ms, fs)[i] == head[i]);
            } else {
                assert(members_crates(root, ms, fs)[i] == tail[i - head.len()]);
            }
        }
    }
}

/// Every crate that a discovery finds is named as its directory's manifest says: after its
/// package, else after the directory's final component; and it lies in a directory with a
/// `Cargo.toml`, or at the root itself. Where no workspace member holds a crate, the discovery
/// finds at most one crate, at the root.
pub proof fn law_discovered_crates(root: Seq<char>, fs: FileSystemView)
    requires
        is_root_answer(fs.root_answer),
    ensures
        run_discovery(start_view(root), DiscoveryActionView::LoadRootManifest(manifest_path(root)), fs) matches Some(
            Ok(v),
        ) ==> forall|i: int|
            0 <= i < v.len() ==> found_at_its_directory(#[trigger] v[i], fs) && ((fs.is_crate_dir)(v[i].1)
                || v[i].1 == root),
        fs.root_answer matches DiscoveryEventView::RootLoaded(ms) ==> (members_crates(
            root,
            members_listed(ms),
            fs,
        ).len() == 0 ==> (run_discovery(
            start_view(root),
            DiscoveryActionView::LoadRootManifest(manifest_path(root)),
            fs,
        ) matches Some(Ok(v)) && v.len() <= 1 && forall|i: int| 0 <= i < v.len() ==> (#[trigger] v[i]).1 == root)),
{
    law_discovery_finds(root, fs);
    if let DiscoveryEventView::RootLoaded(ms) = fs.root_answer {
        let found = members_crates(root, members_listed(ms), fs);
        lemma_members_crates_found(root, members_listed(ms), fs);
        if found.len() == 0 {
            let v = probed_seq(probe_crate(root, (fs.manifest)(root)));
            assert forall|i: int| 0 <= i < v.len() implies found_at_its_directory(#[trigger] v[i], fs)
                && v[i].1 == root by {
                assert(i == 0);
            }
        }
    }
}

} // verus!
