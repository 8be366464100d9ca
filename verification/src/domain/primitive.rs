//! The DomainPrimitive trait and foundational types for strongly-typed metrics.
//!
//! Each domain primitive:
//! - Implements `Validated` with a `ValidationError` for construction failures
//! - Implements `DomainPrimitive` as a marker for the family
//! - Optionally implements `Operative` if it has fallible operations
//!
//! By the time data enters the domain layer, it's valid by construction.
pub mod counts;
pub mod sloc;

use vstd::prelude::*;

verus! {

/// A type that validates on construction.
///
/// The `ValidationError` describes what invariants were violated.
pub trait Validated: Sized {
    /// Error type for construction/validation failures.
    type ValidationError;
}

/// A type that has fallible operations.
///
/// The `OpError` describes operation failures on valid instances
/// (e.g., division by zero, underflow).
pub trait Operative: Sized {
    /// Error type for operation failures.
    type OpError;
}

/// Marker trait for all domain primitives.
pub trait DomainPrimitive: Validated {}

} // verus!
