use ferriscan::analyzer::{count_space_kinds, ItemCounts};
use ferriscan::domain::metrics::function_metrics::{count_closures, FunctionKind};
use ferriscan::extraction::rca::{collect_functions, to_function_kind, RcaError, RcaExtractor};
use ferriscan::extraction::{SpaceKind, SpaceTree};

fn leaf(kind: SpaceKind, item: u32) -> SpaceTree<u32> {
    SpaceTree { kind, item, spaces: Vec::new() }
}

fn sample() -> SpaceTree<u32> {
    // unit { fn 1 { fn 2 }, impl 3 { fn 4, fn 5 }, struct 6 }
    SpaceTree {
        kind: SpaceKind::Unit,
        item: 0,
        spaces: vec![
            SpaceTree { kind: SpaceKind::Function, item: 1, spaces: vec![leaf(SpaceKind::Function, 2)] },
            SpaceTree {
                kind: SpaceKind::Impl,
                item: 3,
                spaces: vec![leaf(SpaceKind::Function, 4), leaf(SpaceKind::Function, 5)],
            },
            leaf(SpaceKind::Struct, 6),
        ],
    }
}

#[test]
fn spaces_counted_by_kind() {
    let counts: ItemCounts = count_space_kinds(&sample());
    assert_eq!(counts.functions, 4);
    assert_eq!(counts.units, 1);
    assert_eq!(counts.other, 2);
    let empty = count_space_kinds(&leaf(SpaceKind::Unit, 0));
    assert_eq!((empty.functions, empty.units, empty.other), (0, 1, 0));
}

#[test]
fn functions_collected_in_preorder() {
    let mut out = vec![99];
    collect_functions(&sample(), &mut out);
    assert_eq!(out, vec![99, 1, 2, 4, 5]);
    let mut none = Vec::new();
    collect_functions(&leaf(SpaceKind::Trait, 7), &mut none);
    assert!(none.is_empty());
}

#[test]
fn function_kind_of_space_kind() {
    assert_eq!(to_function_kind(SpaceKind::Function), Some(FunctionKind::Function));
    assert_eq!(to_function_kind(SpaceKind::Unit), None);
    assert_eq!(to_function_kind(SpaceKind::Impl), None);
    let _extractor = RcaExtractor;
}

#[test]
fn rca_error_messages() {
    assert_eq!(RcaError::ReadError("denied".to_string()).message(), "failed to read file: denied");
    assert_eq!(RcaError::ParseError { path: "a.rs".to_string() }.message(), "failed to parse file: a.rs");
    assert_eq!(RcaError::InvalidMetric("sloc: NaN".to_string()).message(), "invalid metric value: sloc: NaN");
}

#[test]
fn closures_counted_among_functions() {
    let (f, c) = (FunctionKind::Function, FunctionKind::Closure);
    assert_eq!(count_closures(&[f, c, c, f]), 2);
    assert_eq!(count_closures(&[]), 0);
    assert_eq!(count_closures(&[f]), 0);
}
