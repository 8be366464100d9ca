//! A count of files.
use vstd::prelude::*;
use vstd::std_specs::ops::SubSpec;

verus! {

/// A count of files, guaranteed non-negative.
///
/// Subtraction produces a signed `i64` diff, avoiding manual casting
/// when comparing counts.
#[derive(Debug, Clone, Copy, PartialEq, Eq, PartialOrd, Ord, Structural)]
pub struct FileCount(u64);

impl View for FileCount {
    type V = u64;

    closed spec fn view(&self) -> u64 {
        self.0
    }
}

/// The sum of the counts in `s`.
pub open spec fn file_count_sum(s: Seq<FileCount>) -> nat
    decreases s.len(),
{
    if s.len() == 0 {
        0
    } else {
        file_count_sum(s.drop_last()) + s.last()@ as nat
    }
}

/// A prefix sum is one step from the next, and never exceeds the whole sum.
pub proof fn lemma_file_count_sum_prefix(s: Seq<FileCount>, i: int)
    requires
        0 <= i < s.len(),
    ensures
        file_count_sum(s.subrange(0, i + 1)) == file_count_sum(s.subrange(0, i)) + s[i]@,
        file_count_sum(s.subrange(0, i + 1)) <= file_count_sum(s),
    decreases s.len(),
{
    assert(s.subrange(0, i + 1).drop_last() =~= s.subrange(0, i));
    if i + 1 < s.len() {
        lemma_file_count_sum_prefix(s.drop_last(), i);
        assert(s.drop_last().subrange(0, i + 1) =~= s.subrange(0, i + 1));
    } else {
        assert(s.subrange(0, i + 1) =~= s);
    }
}

/// The difference of two counts is the negated difference the other way round, and for counts
/// up to `i64::MAX` it is their exact difference.
pub proof fn law_difference_antisymmetric(a: FileCount, b: FileCount)
    requires
        a.sub_req(b),
        b.sub_req(a),
    ensures
        a.sub_spec(b) == -b.sub_spec(a),
        a@ <= i64::MAX && b@ <= i64::MAX ==> a.sub_spec(b) == a@ - b@,
{
}

/// Counting two lists of files together gives the sum of their counts.
pub proof fn law_total_of_concatenation(s: Seq<FileCount>, t: Seq<FileCount>)
    ensures
        file_count_sum(s + t) == file_count_sum(s) + file_count_sum(t),
    decreases t.len(),
{
    if t.len() == 0 {
        assert(s + t =~= s);
    } else {
        law_total_of_concatenation(s, t.drop_last());
        assert((s + t).drop_last() =~= s + t.drop_last());
    }
}

impl FileCount {
    /// No files.
    pub fn zero() -> (r: Self)
        ensures
            r@ == 0,
    {
        FileCount(0)
    }

    pub fn is_zero(self) -> (r: bool)
        ensures
            r == (self@ == 0),
    {
        self.0 == 0
    }

    /// The total of `counts`, as summing them with `+` from zero gives it.
    pub fn total(counts: &[FileCount]) -> (r: Self)
        requires
            file_count_sum(counts@) <= u64::MAX,
        ensures
            r@ == file_count_sum(counts@),
    {
        let mut acc = FileCount(0);
        let mut i: usize = 0;
        while i < counts.len()
            invariant
                i <= counts@.len(),
                file_count_sum(counts@) <= u64::MAX,
                acc@ == file_count_sum(counts@.subrange(0, i as int)),
            decreases counts@.len() - i,
        {
            proof {
                lemma_file_count_sum_prefix(counts@, i as int);
            }
            acc = acc + counts[i];
            i = i + 1;
        }
        assert(counts@.subrange(0, i as int) =~= counts@);
        acc
    }
}

impl Default for FileCount {
    fn default() -> (r: Self)
        ensures
            r@ == 0,
    {
        FileCount(0)
    }
}

impl core::ops::Add for FileCount {
    type Output = Self;

    fn add(self, rhs: Self) -> (r: Self)
        ensures
            r@ == self@ + rhs@,
    {
        FileCount(self.0 + rhs.0)
    }
}

impl vstd::std_specs::ops::AddSpecImpl for FileCount {
    open spec fn obeys_add_spec() -> bool {
        true
    }

    open spec fn add_req(self, rhs: Self) -> bool {
        self@ + rhs@ <= u64::MAX
    }

    closed spec fn add_spec(self, rhs: Self) -> Self {
        FileCount((self.0 + rhs.0) as u64)
    }
}

/// The difference of two counts, signed. Each count is taken as an `i64` (a count above
/// `i64::MAX` wraps), and the subtraction itself must not overflow.
impl core::ops::Sub for FileCount {
    type Output = i64;

    fn sub(self, rhs: Self) -> (r: i64)
        ensures
            r == (self@ as i64) - (rhs@ as i64),
    {
        self.0 as i64 - rhs.0 as i64
    }
}

impl vstd::std_specs::ops::SubSpecImpl for FileCount {
    open spec fn obeys_sub_spec() -> bool {
        true
    }

    open spec fn sub_req(self, rhs: Self) -> bool {
        i64::MIN <= (self@ as i64) - (rhs@ as i64) <= i64::MAX
    }

    open spec fn sub_spec(self, rhs: Self) -> i64 {
        ((self@ as i64) - (rhs@ as i64)) as i64
    }
}

impl From<u64> for FileCount {
    fn from(value: u64) -> (r: Self)
        ensures
            r@ == value,
    {
        FileCount(value)
    }
}

impl vstd::std_specs::convert::FromSpecImpl<u64> for FileCount {
    open spec fn obeys_from_spec() -> bool {
        true
    }

    closed spec fn from_spec(v: u64) -> Self {
        FileCount(v)
    }
}

impl From<usize> for FileCount {
    fn from(value: usize) -> (r: Self)
        ensures
            r@ == value,
    {
        FileCount(value as u64)
    }
}

impl vstd::std_specs::convert::FromSpecImpl<usize> for FileCount {
    open spec fn obeys_from_spec() -> bool {
        true
    }

    closed spec fn from_spec(v: usize) -> Self {
        FileCount(v as u64)
    }
}

impl From<FileCount> for u64 {
    fn from(count: FileCount) -> (r: u64)
        ensures
            r == count@,
    {
        count.0
    }
}

impl vstd::std_specs::convert::FromSpecImpl<FileCount> for u64 {
    open spec fn obeys_from_spec() -> bool {
        true
    }

    open spec fn from_spec(v: FileCount) -> u64 {
        v@
    }
}

} // verus!
