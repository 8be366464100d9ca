use ferriscan::primitives::file_count::FileCount;
use ferriscan::primitives::resolved_path::ResolvedPath;

#[test]
fn default_is_zero() {
    assert_eq!(FileCount::default(), FileCount::from(0u64));
}

#[test]
fn subtraction_produces_signed_diff() {
    let a = FileCount::from(10u64);
    let b = FileCount::from(15u64);

    assert_eq!(a - b, -5);
    assert_eq!(b - a, 5);
}

#[test]
fn addition_works() {
    let a = FileCount::from(10u64);
    let b = FileCount::from(5u64);

    assert_eq!(a + b, FileCount::from(15u64));
}

#[test]
fn from_and_into_u64() {
    let count: FileCount = 42u64.into();
    let n: u64 = count.into();
    assert_eq!(n, 42);
}

#[test]
fn file_count_total_and_zero() {
    let counts = [FileCount::from(1usize), FileCount::from(2usize), FileCount::from(3usize)];
    assert_eq!(FileCount::total(&counts), FileCount::from(6u64));
    assert!(FileCount::total(&[]).is_zero());
    assert!(FileCount::zero().is_zero());
    assert!(!FileCount::from(1u64).is_zero());
}

#[test]
fn resolved_path_prefers_canonical() {
    let p = ResolvedPath::new("./x".to_string(), Some("/abs/x".to_string()));
    assert_eq!(p.as_str(), "/abs/x");
    let p = ResolvedPath::new("./missing".to_string(), None);
    assert_eq!(p.as_str(), "./missing");
}

#[test]
fn file_count_differences_and_totals() {
    let a = FileCount::from(7u64);
    let b = FileCount::from(19u64);
    assert_eq!(a - b, -(b - a));
    assert_eq!(a - a, 0);
    let left = [a, b];
    let right = [FileCount::from(4u64)];
    let both = [a, b, FileCount::from(4u64)];
    assert_eq!(
        u64::from(FileCount::total(&both)),
        u64::from(FileCount::total(&left)) + u64::from(FileCount::total(&right))
    );
}
