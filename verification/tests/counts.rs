use ferriscan::domain::primitive::counts::{LineNumber, LineNumberValidationError, Nargs, Nexits};

#[test]
fn nargs_valid() {
    assert!(Nargs::new(0).is_ok());
    assert!(Nargs::new(10).is_ok());
    assert_eq!(Nargs::new(5).unwrap().value(), 5);
}

#[test]
fn nargs_addition() {
    let a = Nargs::new(3).unwrap();
    let b = Nargs::new(2).unwrap();
    assert_eq!((a + b).value(), 5);
}

#[test]
fn nexits_valid() {
    assert!(Nexits::new(0).is_ok());
    assert!(Nexits::new(5).is_ok());
}

#[test]
fn line_number_valid() {
    assert!(LineNumber::new(1).is_ok());
    assert!(LineNumber::new(100).is_ok());
}

#[test]
fn line_number_zero_rejected() {
    assert!(matches!(
        LineNumber::new(0),
        Err(LineNumberValidationError::Zero(_))
    ));
}

#[test]
fn counts_totals_and_zero() {
    let values = vec![Nargs::from(1), Nargs::from(2), Nargs::from(4)];
    assert_eq!(Nargs::total(&values).value(), 7);
    assert!(Nargs::total(&[]).is_zero());
    assert!(Nexits::zero().is_zero());
    assert_eq!(Nexits::total(&[Nexits::from(3), Nexits::from(0)]).value(), 3);
    assert_eq!(usize::from(Nexits::from(9)), 9);
}

#[test]
fn line_number_conversions_and_messages() {
    assert_eq!(LineNumber::one().value(), 1);
    assert_eq!(LineNumber::try_from(42).unwrap().value(), 42);
    assert_eq!(usize::from(LineNumber::new(7).unwrap()), 7);
    assert_eq!(LineNumberValidationError::Zero(0).message(), "line number must be >= 1, got 0");
    assert_eq!(LineNumberValidationError::Zero(1203).message(), "line number must be >= 1, got 1203");
}

#[test]
fn count_validation_messages() {
    assert_eq!(
        ferriscan::domain::primitive::counts::NargsValidationError::Unreachable.message(),
        "nargs validation error (unreachable)"
    );
    assert_eq!(
        ferriscan::domain::primitive::counts::NexitsValidationError::Unreachable.message(),
        "nexits validation error (unreachable)"
    );
}
