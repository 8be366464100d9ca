//! Character-level string operations, specified over `Seq<char>`.
use vstd::prelude::*;

verus! {

/// `p` is a prefix of `s`.
pub open spec fn has_prefix(s: Seq<char>, p: Seq<char>) -> bool {
    p.len() <= s.len() && s.subrange(0, p.len() as int) == p
}

/// `p` is a suffix of `s`.
pub open spec fn has_suffix(s: Seq<char>, p: Seq<char>) -> bool {
    p.len() <= s.len() && s.subrange(s.len() - p.len(), s.len() as int) == p
}

/// Index of the last occurrence of `c` in `s`.
pub open spec fn last_index_of(s: Seq<char>, c: char) -> Option<int>
    decreases s.len(),
{
    if s.len() == 0 {
        None
    } else if s.last() == c {
        Some(s.len() - 1)
    } else {
        last_index_of(s.drop_last(), c)
    }
}

/// `s` with every trailing repetition of the non-empty pattern `p` removed.
pub open spec fn trim_suffix_all(s: Seq<char>, p: Seq<char>) -> Seq<char>
    decreases s.len(),
{
    if p.len() > 0 && has_suffix(s, p) {
        trim_suffix_all(s.subrange(0, s.len() - p.len()), p)
    } else {
        s
    }
}

/// The part of `s` after the last `c`, or all of `s` when `c` does not occur.
pub open spec fn after_last(s: Seq<char>, c: char) -> Seq<char> {
    match last_index_of(s, c) {
        Some(i) => s.subrange(i + 1, s.len() as int),
        None => s,
    }
}

/// `last_index_of` finds the last occurrence, and finds none only when there is none.
pub proof fn lemma_last_index_of(s: Seq<char>, c: char)
    ensures
        match last_index_of(s, c) {
            Some(i) => 0 <= i < s.len() && s[i] == c && forall|j: int| i < j < s.len() ==> s[j] != c,
            None => forall|j: int| 0 <= j < s.len() ==> s[j] != c,
        },
    decreases s.len(),
{
    if s.len() > 0 && s.last() != c {
        let t = s.drop_last();
        lemma_last_index_of(t, c);
        assert forall|j: int| 0 <= j < t.len() implies t[j] == s[j] by {}
    }
}

/// An index with the defining property of the last occurrence is the one `last_index_of` gives.
pub proof fn lemma_last_index_of_unique(s: Seq<char>, c: char, i: int)
    requires
        0 <= i < s.len(),
        s[i] == c,
        forall|j: int| i < j < s.len() ==> s[j] != c,
    ensures
        last_index_of(s, c) == Some(i),
{
    lemma_last_index_of(s, c);
    match last_index_of(s, c) {
        Some(k) => {
            if k < i {
                assert(s[i] != c);
            } else if k > i {
                assert(s[k] != c);
            }
        },
        None => {
            assert(s[i] != c);
        },
    }
}

/// Whether `p` occurs in `s` starting at character index `start`.
pub fn matches_at(s: &str, start: usize, p: &str) -> (r: bool)
    ensures
        r == (start + p@.len() <= s@.len() && s@.subrange(start as int, start + p@.len()) == p@),
{
    let sn = s.unicode_len();
    let n = p.unicode_len();
    if start > sn || n > sn - start {
        return false;
    }
    let mut k: usize = 0;
    while k < n
        invariant
            sn == s@.len(),
            n == p@.len(),
            start + n <= s@.len(),
            k <= n,
            forall|j: int| 0 <= j < k ==> s@[start + j] == p@[j],
        decreases n - k,
    {
        if s.get_char(start + k) != p.get_char(k) {
            assert(s@.subrange(start as int, start + p@.len())[k as int] != p@[k as int]);
            return false;
        }
        k = k + 1;
    }
    assert(s@.subrange(start as int, start + p@.len()) =~= p@);
    true
}

/// `str::starts_with` for a string pattern.
pub fn starts_with(s: &str, p: &str) -> (r: bool)
    ensures
        r == has_prefix(s@, p@),
{
    matches_at(s, 0, p)
}

/// `str::contains` for a single character.
pub fn contains_char(s: &str, c: char) -> (r: bool)
    ensures
        r == s@.contains(c),
{
    let n = s.unicode_len();
    let mut i: usize = 0;
    while i < n
        invariant
            n == s@.len(),
            i <= n,
            forall|j: int| 0 <= j < i ==> s@[j] != c,
        decreases n - i,
    {
        if s.get_char(i) == c {
            assert(s@[i as int] == c);
            return true;
        }
        i = i + 1;
    }
    false
}

/// `str::rfind` for a single character, as a character index.
pub fn rfind_char(s: &str, c: char) -> (r: Option<usize>)
    ensures
        match r {
            Some(i) => last_index_of(s@, c) == Some(i as int),
            None => last_index_of(s@, c) == None::<int>,
        },
{
    let n = s.unicode_len();
    let mut i: usize = n;
    while i > 0
        invariant
            n == s@.len(),
            i <= n,
            forall|j: int| i <= j < n ==> s@[j] != c,
        decreases i,
    {
        if s.get_char(i - 1) == c {
            proof {
                lemma_last_index_of_unique(s@, c, i - 1);
            }
            return Some(i - 1);
        }
        i = i - 1;
    }
    proof {
        lemma_last_index_of(s@, c);
        if last_index_of(s@, c) is Some {
            let k = last_index_of(s@, c)->0;
            assert(s@[k] != c);
        }
    }
    None
}

/// `str::trim_end_matches` for a string pattern (an empty pattern removes nothing).
pub fn trim_end_matches<'a>(s: &'a str, p: &str) -> (r: &'a str)
    ensures
        r@ == trim_suffix_all(s@, p@),
{
    let n = s.unicode_len();
    let m = p.unicode_len();
    let mut end: usize = n;
    assert(s@.subrange(0, n as int) =~= s@);
    while m > 0 && end >= m && matches_at(s, end - m, p)
        invariant
            n == s@.len(),
            m == p@.len(),
            end <= n,
            trim_suffix_all(s@.subrange(0, end as int), p@) == trim_suffix_all(s@, p@),
        decreases end,
    {
        proof {
            let t = s@.subrange(0, end as int);
            assert(t.subrange(t.len() - m, t.len() as int) =~= s@.subrange(end - m, end as int));
            assert(t.subrange(0, t.len() - m) =~= s@.subrange(0, end - m));
        }
        end = end - m;
    }
    proof {
        let t = s@.subrange(0, end as int);
        if m > 0 && end >= m {
            assert(t.subrange(t.len() - m, t.len() as int) =~= s@.subrange(end - m, end as int));
        }
        assert(s@.subrange(0, n as int) =~= s@);
    }
    s.substring_char(0, end)
}

/// The part of `s` after the last `c` (`str::rsplit(c).next()`).
pub fn after_last_char<'a>(s: &'a str, c: char) -> (r: &'a str)
    ensures
        r@ == after_last(s@, c),
{
    let n = s.unicode_len();
    match rfind_char(s, c) {
        Some(i) => {
            proof {
                lemma_last_index_of(s@, c);
            }
            s.substring_char(i + 1, n)
        },
        None => {
            assert(s@.subrange(0, s@.len() as int) =~= s@);
            s.substring_char(0, n)
        },
    }
}

/// The character of a decimal digit.
pub open spec fn digit_char(d: nat) -> char {
    (48 + d) as char
}

/// The decimal numeral of `n`, as `usize`'s `Display` writes it.
pub open spec fn decimal(n: nat) -> Seq<char>
    decreases n,
{
    if n < 10 {
        seq![digit_char(n)]
    } else {
        decimal(n / 10) + seq![digit_char(n % 10)]
    }
}

/// The value of a numeral: its decimal digits read from the left.
pub open spec fn numeral_value(s: Seq<char>) -> int
    decreases s.len(),
{
    if s.len() == 0 {
        0
    } else {
        10 * numeral_value(s.drop_last()) + (s.last() as int - 48)
    }
}

/// Whether `c` is one of the digits `0` to `9`.
pub open spec fn is_decimal_digit(c: char) -> bool {
    48 <= c as int <= 57
}

/// The numeral of `n` is a non-empty run of decimal digits, without a leading zero unless `n`
/// is zero, that reads back as `n`.
pub proof fn law_decimal_reads_back(n: nat)
    ensures
        numeral_value(decimal(n)) == n,
        decimal(n).len() > 0,
        forall|i: int| 0 <= i < decimal(n).len() ==> is_decimal_digit(#[trigger] decimal(n)[i]),
        decimal(n)[0] == '0' ==> n == 0,
    decreases n,
{
    if n >= 10 {
        law_decimal_reads_back(n / 10);
        let d = decimal(n);
        let hi = decimal((n / 10) as nat);
        assert(d.drop_last() =~= hi);
        assert(d.last() == digit_char(n % 10));
        assert(d[0] == hi[0]);
        assert(forall|i: int| 0 <= i < hi.len() ==> d[i] == hi[i]);
        assert(n == 10 * (n / 10) + n % 10);
        assert(digit_char(n % 10) as int == 48 + n % 10);
        assert(numeral_value(d) == 10 * numeral_value(hi) + (d.last() as int - 48));
        assert(numeral_value(d) == n);
    } else {
        let d = decimal(n);
        assert(d.drop_last() =~= Seq::<char>::empty());
        assert(digit_char(n) as int == 48 + n);
        assert(numeral_value(d.drop_last()) == 0);
        assert(numeral_value(d) == n);
    }
}

fn digit_str(d: usize) -> (r: &'static str)
    requires
        d < 10,
    ensures
        r@ == seq![digit_char(d as nat)],
{
    proof {
        reveal_strlit("0");
        reveal_strlit("1");
        reveal_strlit("2");
        reveal_strlit("3");
        reveal_strlit("4");
        reveal_strlit("5");
        reveal_strlit("6");
        reveal_strlit("7");
        reveal_strlit("8");
        reveal_strlit("9");
    }
    let r = if d == 0 {
        "0"
    } else if d == 1 {
        "1"
    } else if d == 2 {
        "2"
    } else if d == 3 {
        "3"
    } else if d == 4 {
        "4"
    } else if d == 5 {
        "5"
    } else if d == 6 {
        "6"
    } else if d == 7 {
        "7"
    } else if d == 8 {
        "8"
    } else {
        "9"
    };
    assert(r@ =~= seq![digit_char(d as nat)]);
    r
}

/// The decimal numeral of `n`.
pub fn usize_to_decimal(n: usize) -> (r: String)
    ensures
        r@ == decimal(n as nat),
    decreases n,
{
    if n < 10 {
        String::from_str(digit_str(n))
    } else {
        usize_to_decimal(n / 10).concat(digit_str(n % 10))
    }
}

} // verus!
