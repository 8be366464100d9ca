use ferriscan::workspace::discovery::{Discovery, DiscoveryAction, DiscoveryEvent, Phase};
use ferriscan::workspace::{crate_info_from, discover_all, CrateInfo, WorkspaceError};

fn info(name: &str, path: &str) -> CrateInfo {
    CrateInfo { name: name.to_string(), path: path.to_string() }
}

/// Drive a discovery against a simulated file system.
fn run(
    root: &str,
    root_event: fn() -> DiscoveryEvent,
    glob: fn(&str) -> Vec<String>,
    probe: fn(&str) -> Option<Option<String>>,
    probe_root: fn(&str) -> Option<Option<String>>,
) -> (Result<Vec<CrateInfo>, WorkspaceError>, Vec<String>) {
    let mut log = Vec::new();
    let (mut d, mut action) = Discovery::start(root.to_string());
    loop {
        let event = match action {
            DiscoveryAction::LoadRootManifest(p) => {
                log.push(format!("load {}", p));
                root_event()
            }
            DiscoveryAction::ExpandGlob(p) => {
                log.push(format!("glob {}", p));
                DiscoveryEvent::GlobMatched(glob(&p))
            }
            DiscoveryAction::ProbeMember(p) => {
                log.push(format!("probe {}", p));
                DiscoveryEvent::Probed(probe(&p))
            }
            DiscoveryAction::ProbeRoot(p) => {
                log.push(format!("root {}", p));
                DiscoveryEvent::Probed(probe_root(&p))
            }
            DiscoveryAction::Done(result) => {
                assert_eq!(d.phase(), Phase::Finished);
                return (result, log);
            }
        };
        assert!(d.accepts(&event));
        let (next, next_action) = d.step(event);
        d = next;
        action = next_action;
    }
}

fn names(r: &Result<Vec<CrateInfo>, WorkspaceError>) -> Vec<String> {
    r.as_ref().unwrap().iter().map(|c| c.name.clone()).collect()
}

fn paths(r: &Result<Vec<CrateInfo>, WorkspaceError>) -> Vec<String> {
    r.as_ref().unwrap().iter().map(|c| c.path.clone()).collect()
}

fn probe_dirs(p: &str) -> Option<Option<String>> {
    match p {
        "/ws/a" => Some(Some("a".to_string())),
        "/ws/crates/x" => Some(Some("x".to_string())),
        "/ws/crates/y" => Some(Some("y".to_string())),
        _ => None,
    }
}

#[test]
fn discovery_members_and_globs_in_order() {
    let (result, log) = run(
        "/ws",
        || DiscoveryEvent::RootLoaded(Some(vec!["a".to_string(), "crates/*".to_string(), "gone".to_string()])),
        |p| {
            assert_eq!(p, "/ws/crates/*");
            vec!["/ws/crates/x".to_string(), "/ws/crates/notes".to_string(), "/ws/crates/y".to_string()]
        },
        probe_dirs,
        |_| panic!("the root is not probed when members hold crates"),
    );
    assert_eq!(names(&result), vec!["a", "x", "y"]);
    assert_eq!(paths(&result), vec!["/ws/a", "/ws/crates/x", "/ws/crates/y"]);
    assert_eq!(
        log,
        vec![
            "load /ws/Cargo.toml",
            "probe /ws/a",
            "glob /ws/crates/*",
            "probe /ws/crates/x",
            "probe /ws/crates/notes",
            "probe /ws/crates/y",
            "probe /ws/gone",
        ]
    );
}

#[test]
fn discovery_falls_back_to_root_crate() {
    let (result, log) = run(
        "/solo",
        || DiscoveryEvent::RootLoaded(None),
        |_| panic!("no members"),
        |_| panic!("no members"),
        |_| Some(Some("solo".to_string())),
    );
    assert_eq!(names(&result), vec!["solo"]);
    assert_eq!(paths(&result), vec!["/solo"]);
    assert_eq!(log, vec!["load /solo/Cargo.toml", "root /solo"]);

    // members that hold no crate also fall back to the root
    let (result, _) = run(
        "/ws",
        || DiscoveryEvent::RootLoaded(Some(vec!["missing".to_string(), "empty/*".to_string()])),
        |_| Vec::new(),
        |_| None,
        |_| None,
    );
    assert!(result.unwrap().is_empty());
}

#[test]
fn discovery_names_crates_by_package_else_directory() {
    let (result, _) = run(
        "/ws",
        || DiscoveryEvent::RootLoaded(Some(vec!["tools/*".to_string()])),
        |_| vec!["/ws/tools/gen".to_string(), "/ws/tools/lint".to_string()],
        |p| if p == "/ws/tools/gen" { Some(Some("codegen".to_string())) } else { Some(None) },
        |_| panic!("the root is not probed when members hold crates"),
    );
    assert_eq!(names(&result), vec!["codegen", "lint"]);
    assert_eq!(paths(&result), vec!["/ws/tools/gen", "/ws/tools/lint"]);

    // a root manifest without a package is named after the directory
    let (result, _) = run("/home/me/proj", || DiscoveryEvent::RootLoaded(None), |_| Vec::new(), |_| None, |_| Some(None));
    assert_eq!(names(&result), vec!["proj"]);
    assert_eq!(paths(&result), vec!["/home/me/proj"]);
}

#[test]
fn discovery_root_errors() {
    let (result, log) = run("/nowhere", || DiscoveryEvent::RootMissing, |_| Vec::new(), |_| None, |_| None);
    assert!(matches!(result, Err(WorkspaceError::NotFound(ref p)) if p == "/nowhere"));
    assert_eq!(log.len(), 1);
    let (result, _) = run(
        "/ws",
        || DiscoveryEvent::RootUnreadable("denied".to_string()),
        |_| Vec::new(),
        |_| None,
        |_| None,
    );
    assert!(matches!(result, Err(WorkspaceError::Read { ref path, ref message }) if path == "/ws/Cargo.toml" && message == "denied"));
    let (result, _) = run(
        "/ws",
        || DiscoveryEvent::RootInvalid("bad toml".to_string()),
        |_| Vec::new(),
        |_| None,
        |_| None,
    );
    let err = result.unwrap_err();
    assert_eq!(err.message(), "failed to parse /ws/Cargo.toml");
}

#[test]
fn discovery_rejects_unexpected_events() {
    let (d, _) = Discovery::start("/ws".to_string());
    assert_eq!(d.phase(), Phase::AwaitRoot);
    assert!(!d.accepts(&DiscoveryEvent::Probed(None)));
    assert!(!d.accepts(&DiscoveryEvent::GlobMatched(Vec::new())));
    assert!(d.accepts(&DiscoveryEvent::RootMissing));
}

#[test]
fn crate_info_naming() {
    let c = crate_info_from("/ws/crates/x", Some("pkg".to_string())).unwrap();
    assert_eq!((c.name.as_str(), c.path.as_str()), ("pkg", "/ws/crates/x"));
    let c = crate_info_from("/ws/crates/x", None).unwrap();
    assert_eq!(c.name, "x");
    assert!(crate_info_from("/", None).is_none());
}

#[test]
fn discover_all_pairs_names_and_stops_at_first_error() {
    let paths = vec!["/a/left".to_string(), "/b/right".to_string()];
    let r = discover_all(&paths, vec![Ok(vec![info("l", "/a/left")]), Ok(Vec::new())]).unwrap();
    assert_eq!(r.len(), 2);
    assert_eq!(r[0].0, "left");
    assert_eq!(r[0].1[0].name, "l");
    assert_eq!(r[1].0, "right");
    let r = discover_all(
        &paths,
        vec![Err(WorkspaceError::NotFound("/a/left".to_string())), Err(WorkspaceError::NotFound("/b/right".to_string()))],
    );
    assert!(matches!(r, Err(WorkspaceError::NotFound(ref p)) if p == "/a/left"));
    let r = discover_all(&paths, vec![Ok(Vec::new()), Err(WorkspaceError::NotFound("/b/right".to_string()))]);
    assert!(matches!(r, Err(WorkspaceError::NotFound(ref p)) if p == "/b/right"));
}

#[test]
fn workspace_error_messages() {
    assert_eq!(WorkspaceError::NotFound("/x".to_string()).message(), "no Cargo.toml found at /x");
    let e = WorkspaceError::Read { path: "/x/Cargo.toml".to_string(), message: "io".to_string() };
    assert_eq!(e.message(), "failed to read /x/Cargo.toml");
}
