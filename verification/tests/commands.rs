use ferriscan::cli::commands::compare::CompareCommand as SourceCompare;
use ferriscan::cli::format::OutputFormat as CliFormat;
use ferriscan::commands::compare::CompareCommand;
use ferriscan::domain::primitive::sloc::SlocOpError;
use ferriscan::report::{is_default_path, OutputFormat};

#[test]
fn compare_side_names() {
    let (l, r) = CompareCommand::side_names("/work/old", "/");
    assert_eq!(l, "old");
    assert_eq!(r, "right");
    let cmd = CompareCommand { left: "a".to_string(), right: "b".to_string(), format: OutputFormat::Json };
    assert_eq!(cmd.format, OutputFormat::Json);
}

#[test]
fn compare_right_path_defaults_to_left() {
    let cmd = SourceCompare {
        left_source: "a".parse().unwrap(),
        right_source: "b".parse().unwrap(),
        left_path: "src".to_string(),
        right_path: None,
        format: CliFormat::Table,
    };
    assert_eq!(cmd.effective_right_path(), "src");
    let cmd = SourceCompare { right_path: Some("lib".to_string()), ..cmd };
    assert_eq!(cmd.effective_right_path(), "lib");
}

#[test]
fn default_path_and_messages() {
    assert!(is_default_path(""));
    assert!(!is_default_path("x"));
    assert_eq!(SlocOpError::DivisionByZero.message(), "cannot divide by zero SLOC");
}

#[test]
fn warning_locations() {
    let loc = ferriscan::cli::commands::analyze::warning_location;
    assert_eq!(loc("src/a.rs", Some("parse"), Some(42)), "src/a.rs:42 (parse)");
    assert_eq!(loc("src/a.rs", Some("parse"), None), "src/a.rs (parse)");
    assert_eq!(loc("src/a.rs", None, Some(7)), "src/a.rs:7");
    assert_eq!(loc("src/a.rs", None, None), "src/a.rs");
}

#[test]
fn function_count_threshold() {
    let w = ferriscan::domain::thresholds::function_count_warning;
    assert_eq!(w(21, 20), Some("Too many functions: 21 (threshold: 20)".to_string()));
    assert_eq!(w(20, 20), None);
    assert_eq!(w(0, 0), None);
}
