use ferriscan::cli::repo::remote::{GitRef, RemoteRepo};
use ferriscan::cli::repo::resolved::{RepoSourceError, ResolvedRepo};
use ferriscan::cli::repo::source::RepoSource;

#[test]
fn source_local_path_detected() {
    let source: RepoSource = "./some/path".parse().unwrap();
    assert!(!source.is_remote());
}

#[test]
fn source_https_url_detected() {
    let source: RepoSource = "https://github.com/user/repo".parse().unwrap();
    assert!(matches!(
        source,
        RepoSource::Remote(RemoteRepo { git_ref: GitRef::Default, .. })
    ));
}

#[test]
fn source_git_ssh_url_detected() {
    let source: RepoSource = "git@github.com:user/repo".parse().unwrap();
    assert!(matches!(
        source,
        RepoSource::Remote(RemoteRepo { git_ref: GitRef::Default, .. })
    ));
}

#[test]
fn source_https_with_ref_parsed() {
    let source: RepoSource = "https://github.com/user/repo@main".parse().unwrap();
    assert!(matches!(
        source,
        RepoSource::Remote(RemoteRepo { git_ref: GitRef::Named(ref r), .. }) if r == "main"
    ));
}

#[test]
fn source_git_ssh_with_ref_parsed() {
    let source: RepoSource = "git@github.com:user/repo@v1.0.0".parse().unwrap();
    assert!(matches!(
        source,
        RepoSource::Remote(RemoteRepo { git_ref: GitRef::Named(ref r), .. }) if r == "v1.0.0"
    ));
}

#[test]
fn source_display_name_extracts_repo() {
    let source: RepoSource = "https://github.com/user/my-repo.git@v1.0".parse().unwrap();
    assert_eq!(source.display_name(), "my-repo@v1.0");
}

#[test]
fn source_display_name_local() {
    let source: RepoSource = "/home/user/my-project".parse().unwrap();
    assert_eq!(source.display_name(), "my-project");
}

#[test]
fn source_display_name_local_without_file_name() {
    let source: RepoSource = "..".parse().unwrap();
    assert_eq!(source.display_name(), "..");
    let source: RepoSource = "/".parse().unwrap();
    assert_eq!(source.display_name(), "/");
}

#[test]
fn source_text_round_trips() {
    for text in [
        "/home/user/project",
        "https://github.com/user/repo",
        "https://github.com/user/repo@v1.0",
        "git://host/repo.git@feature-branch",
    ] {
        let source: RepoSource = text.parse().unwrap();
        assert_eq!(source.to_text(), text);
    }
}

#[test]
fn remote_repo_name_and_display() {
    let repo = RemoteRepo::new("https://github.com/user/tool.git".to_string(), GitRef::Default);
    assert_eq!(repo.repo_name(), "tool");
    assert_eq!(repo.display_name(), "tool");
    let repo = RemoteRepo::new("git@github.com:user/tool".to_string(), GitRef::Named("v2".to_string()));
    assert_eq!(repo.repo_name(), "tool");
    assert_eq!(repo.display_name(), "tool@v2");
}

#[test]
fn remote_clone_command_args() {
    let repo = RemoteRepo::new("https://h/u/r".to_string(), GitRef::Named("dev".to_string()));
    assert_eq!(
        repo.clone_command_args(),
        vec!["clone", "--depth=1", "--branch", "dev", "https://h/u/r"]
    );
    let repo = RemoteRepo::new("https://h/u/r".to_string(), GitRef::Default);
    assert_eq!(repo.clone_command_args(), vec!["clone", "--depth=1", "https://h/u/r"]);
}

#[test]
fn resolved_repo_from_local() {
    let repo = ResolvedRepo::from_local(std::path::PathBuf::from("/work/project"));
    assert_eq!(repo.path().as_path(), std::path::Path::new("/work/project"));
}

#[test]
fn repo_source_error_messages() {
    assert_eq!(
        RepoSourceError::TempDir("disk full".to_string()).message(),
        "failed to create temp directory: disk full"
    );
    assert_eq!(RepoSourceError::GitNotFound("x".to_string()).message(), "git not found: x");
    assert_eq!(RepoSourceError::CloneFailed("bad ref".to_string()).message(), "git clone failed: bad ref");
}
