use ferriscan::cli::args::RepoSource;

#[test]
fn args_local_path_detected() {
    let source: RepoSource = "./some/path".parse().unwrap();
    assert!(!source.is_remote());
}

#[test]
fn args_https_url_detected() {
    let source: RepoSource = "https://github.com/user/repo".parse().unwrap();
    assert!(source.is_remote());
    assert_eq!(source.git_ref(), None);
}

#[test]
fn args_git_ssh_url_detected() {
    let source: RepoSource = "git@github.com:user/repo".parse().unwrap();
    assert!(source.is_remote());
    assert_eq!(source.git_ref(), None);
}

#[test]
fn args_https_with_ref_parsed() {
    let source: RepoSource = "https://github.com/user/repo@main".parse().unwrap();
    assert!(source.is_remote());
    assert_eq!(source.git_ref(), Some("main"));
}

#[test]
fn args_git_ssh_with_ref_parsed() {
    let source: RepoSource = "git@github.com:user/repo@v1.0.0".parse().unwrap();
    assert!(source.is_remote());
    assert_eq!(source.git_ref(), Some("v1.0.0"));
}

#[test]
fn args_display_name_extracts_repo() {
    let source: RepoSource = "https://github.com/user/my-repo.git@v1.0".parse().unwrap();
    assert_eq!(source.display_name(), "my-repo@v1.0");
}

#[test]
fn args_display_name_local() {
    let source: RepoSource = "/home/user/my-project".parse().unwrap();
    assert_eq!(source.display_name(), "my-project");
}

#[test]
fn args_text_round_trips() {
    for text in [
        "./some/path",
        "https://github.com/user/repo",
        "https://github.com/user/repo@main",
        "git@github.com:user/repo@v1.0.0",
        "git@github.com:repo@v2",
        "ssh://host/a@b/c",
    ] {
        let source: RepoSource = text.parse().unwrap();
        assert_eq!(source.to_text(), text);
    }
}

#[test]
fn args_ref_only_after_last_slash() {
    // the `@` of `git@` is not a ref separator
    let source: RepoSource = "ssh://git@host/user/repo".parse().unwrap();
    assert!(source.is_remote());
    assert_eq!(source.git_ref(), None);
    assert_eq!(source.remote_url(), Some("ssh://git@host/user/repo"));
    // without any `/` there is no ref either
    let source: RepoSource = "git@github.com:repo@v2".parse().unwrap();
    assert_eq!(source.git_ref(), None);
    assert_eq!(source.display_name(), "git@github.com:repo@v2");
}

#[test]
fn args_local_accessors() {
    let source: RepoSource = "http-like/path".parse().unwrap();
    assert!(!source.is_remote());
    assert_eq!(source.local_path(), Some("http-like/path"));
    assert_eq!(source.remote_url(), None);
    assert_eq!(source.clone_command_args(), None);
}

#[test]
fn args_clone_command_args() {
    let source: RepoSource = "https://github.com/user/repo@main".parse().unwrap();
    assert_eq!(
        source.clone_command_args().unwrap(),
        vec!["clone", "--depth=1", "--branch", "main", "https://github.com/user/repo"]
    );
    let source: RepoSource = "https://github.com/user/repo".parse().unwrap();
    assert_eq!(
        source.clone_command_args().unwrap(),
        vec!["clone", "--depth=1", "https://github.com/user/repo"]
    );
}

#[test]
fn args_display_name_trims_every_git_suffix() {
    let source: RepoSource = "https://host/user/name.git.git".parse().unwrap();
    assert_eq!(source.display_name(), "name");
    let source: RepoSource = "https://host/user/".parse().unwrap();
    assert_eq!(source.display_name(), "");
}

#[test]
fn args_and_source_forms_agree() {
    for text in ["/home/user/proj", "https://h/u/r.git@v1", "git@h:u/r", "./x/.."] {
        let a: RepoSource = text.parse().unwrap();
        let b: ferriscan::cli::repo::source::RepoSource = text.parse().unwrap();
        assert_eq!(a.is_remote(), b.is_remote());
        assert_eq!(a.display_name(), b.display_name());
        assert_eq!(a.to_text(), b.to_text());
    }
}
