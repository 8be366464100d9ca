use ferriscan::text::{after_last_char, contains_char, rfind_char, starts_with, trim_end_matches, usize_to_decimal};

#[test]
fn text_prefix_and_search() {
    assert!(starts_with("https://x", "https://"));
    assert!(!starts_with("http", "https://"));
    assert!(starts_with("abc", ""));
    assert!(contains_char("src/*", '*'));
    assert!(!contains_char("src/a", '*'));
    assert_eq!(rfind_char("a/b/c", '/'), Some(3));
    assert_eq!(rfind_char("abc", '/'), None);
    // character indices, not byte indices
    assert_eq!(rfind_char("é/x", '/'), Some(1));
}

#[test]
fn text_trim_and_split() {
    assert_eq!(trim_end_matches("repo.git.git", ".git"), "repo");
    assert_eq!(trim_end_matches("repo", ".git"), "repo");
    assert_eq!(trim_end_matches(".git", ".git"), "");
    assert_eq!(after_last_char("a/b/c", '/'), "c");
    assert_eq!(after_last_char("abc", '/'), "abc");
    assert_eq!(after_last_char("abc/", '/'), "");
}

#[test]
fn text_decimal() {
    assert_eq!(usize_to_decimal(0), "0");
    assert_eq!(usize_to_decimal(9), "9");
    assert_eq!(usize_to_decimal(10), "10");
    assert_eq!(usize_to_decimal(4096), "4096");
    assert_eq!(usize_to_decimal(usize::MAX), usize::MAX.to_string());
}
