//! Integer count primitives (Nargs, Nexits, LineNumber).
use vstd::prelude::*;

use super::{DomainPrimitive, Validated};
use crate::text::{decimal, usize_to_decimal};

verus! {

// ============================================================================
// Nargs - Number of function arguments
// ============================================================================

/// Number of arguments in a function signature.
#[derive(Debug, Clone, Copy, PartialEq, Eq, PartialOrd, Ord, Default, Structural)]
pub struct Nargs(usize);

#[derive(Debug, Clone, PartialEq, Eq, Structural)]
pub enum NargsValidationError {
    // usize cannot be negative, so no validation errors possible
    // but we keep the error type for trait consistency
    Unreachable,
}

impl NargsValidationError {
    /// The message that describes this error.
    pub fn message(&self) -> (r: String)
        ensures
            r@ == "nargs validation error (unreachable)"@,
    {
        String::from_str("nargs validation error (unreachable)")
    }
}

impl View for Nargs {
    type V = usize;

    closed spec fn view(&self) -> usize {
        self.0
    }
}

impl Nargs {
    /// Every count is valid: construction always succeeds.
    pub fn new(value: usize) -> (r: Result<Self, NargsValidationError>)
        ensures
            r matches Ok(n) && n@ == value,
    {
        Ok(Self(value))
    }

    pub fn zero() -> (r: Self)
        ensures
            r@ == 0,
    {
        Self(0)
    }

    pub fn value(self) -> (r: usize)
        ensures
            r == self@,
    {
        self.0
    }

    pub fn is_zero(self) -> (r: bool)
        ensures
            r == (self@ == 0),
    {
        self.0 == 0
    }

    /// The total of `values`, as summing them with `+` from zero gives it.
    pub fn total(values: &[Nargs]) -> (r: Self)
        requires
            nargs_sum(values@) <= usize::MAX,
        ensures
            r@ == nargs_sum(values@),
    {
        let mut acc = Self::zero();
        let mut i: usize = 0;
        while i < values.len()
            invariant
                i <= values@.len(),
                nargs_sum(values@) <= usize::MAX,
                acc@ == nargs_sum(values@.subrange(0, i as int)),
            decreases values@.len() - i,
        {
            proof {
                lemma_nargs_sum_prefix(values@, i as int);
            }
            acc = acc + values[i];
            i = i + 1;
        }
        assert(values@.subrange(0, i as int) =~= values@);
        acc
    }
}

/// The sum of the counts in `s`.
pub open spec fn nargs_sum(s: Seq<Nargs>) -> nat
    decreases s.len(),
{
    if s.len() == 0 {
        0
    } else {
        nargs_sum(s.drop_last()) + s.last()@ as nat
    }
}

/// A prefix sum is one step from the next, and never exceeds the whole sum.
pub proof fn lemma_nargs_sum_prefix(s: Seq<Nargs>, i: int)
    requires
        0 <= i < s.len(),
    ensures
        nargs_sum(s.subrange(0, i + 1)) == nargs_sum(s.subrange(0, i)) + s[i]@,
        nargs_sum(s.subrange(0, i + 1)) <= nargs_sum(s),
    decreases s.len(),
{
    assert(s.subrange(0, i + 1).drop_last() =~= s.subrange(0, i));
    if i + 1 < s.len() {
        lemma_nargs_sum_prefix(s.drop_last(), i);
        assert(s.drop_last().subrange(0, i + 1) =~= s.subrange(0, i + 1));
    } else {
        assert(s.subrange(0, i + 1) =~= s);
    }
}

impl Validated for Nargs {
    type ValidationError = NargsValidationError;
}

impl DomainPrimitive for Nargs {}

impl core::ops::Add for Nargs {
    type Output = Self;

    fn add(self, rhs: Self) -> (r: Self)
        ensures
            r@ == self@ + rhs@,
    {
        Self(self.0 + rhs.0)
    }
}

impl vstd::std_specs::ops::AddSpecImpl for Nargs {
    open spec fn obeys_add_spec() -> bool {
        true
    }

    open spec fn add_req(self, rhs: Self) -> bool {
        self@ + rhs@ <= usize::MAX
    }

    closed spec fn add_spec(self, rhs: Self) -> Self {
        Self((self.0 + rhs.0) as usize)
    }
}

impl From<usize> for Nargs {
    fn from(value: usize) -> (r: Self)
        ensures
            r@ == value,
    {
        Self(value)
    }
}

impl vstd::std_specs::convert::FromSpecImpl<usize> for Nargs {
    open spec fn obeys_from_spec() -> bool {
        true
    }

    closed spec fn from_spec(v: usize) -> Self {
        Self(v)
    }
}

impl From<Nargs> for usize {
    fn from(n: Nargs) -> (r: usize)
        ensures
            r == n@,
    {
        n.0
    }
}

impl vstd::std_specs::convert::FromSpecImpl<Nargs> for usize {
    open spec fn obeys_from_spec() -> bool {
        true
    }

    open spec fn from_spec(v: Nargs) -> usize {
        v@
    }
}

// ============================================================================
// Nexits - Number of exit points
// ============================================================================

/// Number of exit points in a function.
#[derive(Debug, Clone, Copy, PartialEq, Eq, PartialOrd, Ord, Default, Structural)]
pub struct Nexits(usize);

#[derive(Debug, Clone, PartialEq, Eq, Structural)]
pub enum NexitsValidationError {
    // usize cannot be negative, so no validation errors possible
    // but we keep the error type for trait consistency
    Unreachable,
}

impl NexitsValidationError {
    /// The message that describes this error.
    pub fn message(&self) -> (r: String)
        ensures
            r@ == "nexits validation error (unreachable)"@,
    {
        String::from_str("nexits validation error (unreachable)")
    }
}

impl View for Nexits {
    type V = usize;

    closed spec fn view(&self) -> usize {
        self.0
    }
}

impl Nexits {
    /// Every count is valid: construction always succeeds.
    pub fn new(value: usize) -> (r: Result<Self, NexitsValidationError>)
        ensures
            r matches Ok(n) && n@ == value,
    {
        Ok(Self(value))
    }

    pub fn zero() -> (r: Self)
        ensures
            r@ == 0,
    {
        Self(0)
    }

    pub fn value(self) -> (r: usize)
        ensures
            r == self@,
    {
        self.0
    }

    pub fn is_zero(self) -> (r: bool)
        ensures
            r == (self@ == 0),
    {
        self.0 == 0
    }

    /// The total of `values`, as summing them with `+` from zero gives it.
    pub fn total(values: &[Nexits]) -> (r: Self)
        requires
            nexits_sum(values@) <= usize::MAX,
        ensures
            r@ == nexits_sum(values@),
    {
        let mut acc = Self::zero();
        let mut i: usize = 0;
        while i < values.len()
            invariant
                i <= values@.len(),
                nexits_sum(values@) <= usize::MAX,
                acc@ == nexits_sum(values@.subrange(0, i as int)),
            decreases values@.len() - i,
        {
            proof {
                lemma_nexits_sum_prefix(values@, i as int);
            }
            acc = acc + values[i];
            i = i + 1;
        }
        assert(values@.subrange(0, i as int) =~= values@);
        acc
    }
}

/// The sum of the counts in `s`.
pub open spec fn nexits_sum(s: Seq<Nexits>) -> nat
    decreases s.len(),
{
    if s.len() == 0 {
        0
    } else {
        nexits_sum(s.drop_last()) + s.last()@ as nat
    }
}

/// A prefix sum is one step from the next, and never exceeds the whole sum.
pub proof fn lemma_nexits_sum_prefix(s: Seq<Nexits>, i: int)
    requires
        0 <= i < s.len(),
    ensures
        nexits_sum(s.subrange(0, i + 1)) == nexits_sum(s.subrange(0, i)) + s[i]@,
        nexits_sum(s.subrange(0, i + 1)) <= nexits_sum(s),
    decreases s.len(),
{
    assert(s.subrange(0, i + 1).drop_last() =~= s.subrange(0, i));
    if i + 1 < s.len() {
        lemma_nexits_sum_prefix(s.drop_last(), i);
        assert(s.drop_last().subrange(0, i + 1) =~= s.subrange(0, i + 1));
    } else {
        assert(s.subrange(0, i + 1) =~= s);
    }
}

impl Validated for Nexits {
    type ValidationError = NexitsValidationError;
}

impl DomainPrimitive for Nexits {}

impl core::ops::Add for Nexits {
    type Output = Self;

    fn add(self, rhs: Self) -> (r: Self)
        ensures
            r@ == self@ + rhs@,
    {
        Self(self.0 + rhs.0)
    }
}

impl vstd::std_specs::ops::AddSpecImpl for Nexits {
    open spec fn obeys_add_spec() -> bool {
        true
    }

    open spec fn add_req(self, rhs: Self) -> bool {
        self@ + rhs@ <= usize::MAX
    }

    closed spec fn add_spec(self, rhs: Self) -> Self {
        Self((self.0 + rhs.0) as usize)
    }
}

impl From<usize> for Nexits {
    fn from(value: usize) -> (r: Self)
        ensures
            r@ == value,
    {
        Self(value)
    }
}

impl vstd::std_specs::convert::FromSpecImpl<usize> for Nexits {
    open spec fn obeys_from_spec() -> bool {
        true
    }

    closed spec fn from_spec(v: usize) -> Self {
        Self(v)
    }
}

impl From<Nexits> for usize {
    fn from(n: Nexits) -> (r: usize)
        ensures
            r == n@,
    {
        n.0
    }
}

impl vstd::std_specs::convert::FromSpecImpl<Nexits> for usize {
    open spec fn obeys_from_spec() -> bool {
        true
    }

    open spec fn from_spec(v: Nexits) -> usize {
        v@
    }
}

// ============================================================================
// LineNumber - Source line number (1-indexed)
// ============================================================================

/// A line number in source code (1-indexed).
#[derive(Debug, Clone, Copy, PartialEq, Eq, PartialOrd, Ord, Structural)]
pub struct LineNumber(usize);

#[derive(Debug, Clone, PartialEq, Eq, Structural)]
pub enum LineNumberValidationError {
    Zero(usize),
}

impl LineNumberValidationError {
    /// The message that describes this error.
    pub fn message(&self) -> (r: String)
        ensures
            r@ == match *self {
                LineNumberValidationError::Zero(v) => "line number must be >= 1, got "@ + decimal(v as nat),
            },
    {
        match self {
            LineNumberValidationError::Zero(v) => String::from_str("line number must be >= 1, got ").concat(
                usize_to_decimal(*v).as_str(),
            ),
        }
    }
}

impl View for LineNumber {
    type V = usize;

    closed spec fn view(&self) -> usize {
        self.0
    }
}

impl LineNumber {
    /// The line number `value`; line numbers start at 1, so 0 is refused.
    pub fn new(value: usize) -> (r: Result<Self, LineNumberValidationError>)
        ensures
            value == 0 ==> r == Err::<Self, _>(LineNumberValidationError::Zero(value)),
            value != 0 ==> (r matches Ok(n) && n@ == value),
    {
        if value == 0 {
            return Err(LineNumberValidationError::Zero(value));
        }
        Ok(Self(value))
    }

    pub fn one() -> (r: Self)
        ensures
            r@ == 1,
    {
        Self(1)
    }

    pub fn value(self) -> (r: usize)
        ensures
            r == self@,
            r >= 1,
    {
        proof {
            use_type_invariant(&self);
        }
        self.0
    }

    #[verifier::type_invariant]
    spec fn is_valid(self) -> bool {
        self.0 >= 1
    }
}

impl Validated for LineNumber {
    type ValidationError = LineNumberValidationError;
}

impl DomainPrimitive for LineNumber {}

impl TryFrom<usize> for LineNumber {
    type Error = LineNumberValidationError;

    fn try_from(value: usize) -> (r: Result<Self, Self::Error>)
        ensures
            value == 0 ==> r == Err::<Self, _>(LineNumberValidationError::Zero(value)),
            value != 0 ==> (r matches Ok(n) && n@ == value),
    {
        Self::new(value)
    }
}

impl vstd::std_specs::convert::TryFromSpecImpl<usize> for LineNumber {
    open spec fn obeys_try_from_spec() -> bool {
        true
    }

    closed spec fn try_from_spec(v: usize) -> Result<Self, Self::Error> {
        if v == 0 {
            Err(LineNumberValidationError::Zero(v))
        } else {
            Ok(Self(v))
        }
    }
}

impl From<LineNumber> for usize {
    fn from(ln: LineNumber) -> (r: usize)
        ensures
            r == ln@,
    {
        ln.0
    }
}

impl vstd::std_specs::convert::FromSpecImpl<LineNumber> for usize {
    open spec fn obeys_from_spec() -> bool {
        true
    }

    open spec fn from_spec(v: LineNumber) -> usize {
        v@
    }
}

} // verus!
