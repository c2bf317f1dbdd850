//! Character-level string utilities: digit projection, first-separator
//! splitting, equality and affix tests, and the trusted uppercasing
//! primitive shared by the matcher and the residential classifier.

use vstd::prelude::*;
use vstd::string::*;

verus! {

/// True of the ASCII decimal digits `'0'..='9'`.
pub open spec fn is_digit_char(c: char) -> bool {
    48 <= c as u32 <= 57
}

/// The subsequence of ASCII digits of `s`, in order.
pub open spec fn spec_digits(s: Seq<char>) -> Seq<char>
    decreases s.len(),
{
    if s.len() == 0 {
        Seq::empty()
    } else if is_digit_char(s.last()) {
        spec_digits(s.drop_last()).push(s.last())
    } else {
        spec_digits(s.drop_last())
    }
}

/// Keeps exactly the ASCII digits of `text`, in order.
pub fn digits(text: &str) -> (r: String)
    ensures
        r@ == spec_digits(text@),
{
    let n = text.unicode_len();
    let mut out = String::new();
    for i in 0..n
        invariant
            n == text@.len(),
            out@ == spec_digits(text@.take(i as int)),
    {
        let c = text.get_char(i);
        proof {
            assert(text@.take(i + 1).drop_last() =~= text@.take(i as int));
            assert(text@.take(i + 1).last() == text@[i as int]);
        }
        if 48 <= c as u32 && c as u32 <= 57 {
            let piece = text.substring_char(i, i + 1);
            out.append(piece);
            proof {
                assert(out@ =~= spec_digits(text@.take(i + 1)));
            }
        }
    }
    proof {
        assert(text@.take(n as int) =~= text@);
    }
    out
}

/// Index of the first occurrence of `sep` in `s`, or `s.len()` when `sep`
/// does not occur.
pub open spec fn first_index_of(s: Seq<char>, sep: char) -> int
    decreases s.len(),
{
    if s.len() == 0 {
        0
    } else if s[0] == sep {
        0
    } else {
        1 + first_index_of(s.drop_first(), sep)
    }
}

/// The first-occurrence index is pinned by its characterization.
pub proof fn lemma_first_index_of_is(s: Seq<char>, sep: char, i: int)
    requires
        0 <= i <= s.len(),
        forall|k: int| 0 <= k < i ==> s[k] != sep,
        i < s.len() ==> s[i] == sep,
    ensures
        first_index_of(s, sep) == i,
    decreases s.len(),
{
    if s.len() == 0 {
    } else if s[0] == sep {
        assert(i == 0);
    } else {
        assert(i >= 1);
        assert forall|k: int| 0 <= k < i - 1 implies s.drop_first()[k] != sep by {
            assert(s.drop_first()[k] == s[k + 1]);
        }
        assert(i - 1 < s.drop_first().len() ==> s.drop_first()[i - 1] == s[i]);
        lemma_first_index_of_is(s.drop_first(), sep, i - 1);
    }
}

/// The two pieces of `s` around the first occurrence of `sep`, which is
/// dropped; `None` when `sep` does not occur.
pub open spec fn split_at_first(s: Seq<char>, sep: char) -> Option<(Seq<char>, Seq<char>)> {
    let i = first_index_of(s, sep);
    if i < s.len() {
        Some((s.take(i), s.skip(i + 1)))
    } else {
        None
    }
}

/// Splits at the first occurrence of `sep`, as `split_once` does.
pub fn split_once_char(s: &str, sep: char) -> (r: Option<(String, String)>)
    ensures
        match r {
            Some(parts) => split_at_first(s@, sep) == Some((parts.0@, parts.1@)),
            None => split_at_first(s@, sep) is None,
        },
{
    let n = s.unicode_len();
    let mut i: usize = 0;
    while i < n
        invariant
            n == s@.len(),
            0 <= i <= n,
            forall|k: int| 0 <= k < i ==> s@[k] != sep,
        decreases n - i,
    {
        if s.get_char(i) == sep {
            proof {
                lemma_first_index_of_is(s@, sep, i as int);
            }
            let left = s.substring_char(0, i);
            let right = s.substring_char(i + 1, n);
            proof {
                assert(left@ =~= s@.take(i as int));
                assert(right@ =~= s@.skip(i as int + 1));
            }
            return Some((String::from_str(left), String::from_str(right)));
        }
        i = i + 1;
    }
    proof {
        lemma_first_index_of_is(s@, sep, n as int);
    }
    None
}

/// Character-for-character equality of two string slices.
pub fn str_eq(a: &str, b: &str) -> (r: bool)
    ensures
        r == (a@ == b@),
{
    let na = a.unicode_len();
    let nb = b.unicode_len();
    if na != nb {
        return false;
    }
    let mut i: usize = 0;
    while i < na
        invariant
            na == a@.len(),
            nb == b@.len(),
            na == nb,
            0 <= i <= na,
            forall|k: int| 0 <= k < i ==> a@[k] == b@[k],
        decreases na - i,
    {
        if a.get_char(i) != b.get_char(i) {
            return false;
        }
        i = i + 1;
    }
    proof {
        assert(a@ =~= b@);
    }
    true
}

/// `p` occurs at the very start of `s`.
pub open spec fn is_prefix_of(p: Seq<char>, s: Seq<char>) -> bool {
    p.len() <= s.len() && s.take(p.len() as int) == p
}

/// `p` occurs at the very end of `s`.
pub open spec fn is_suffix_of(p: Seq<char>, s: Seq<char>) -> bool {
    p.len() <= s.len() && s.skip(s.len() - p.len()) == p
}

pub fn str_starts_with(s: &str, p: &str) -> (r: bool)
    ensures
        r == is_prefix_of(p@, s@),
{
    let ns = s.unicode_len();
    let np = p.unicode_len();
    if np > ns {
        return false;
    }
    let head = s.substring_char(0, np);
    proof {
        assert(head@ =~= s@.take(p@.len() as int));
    }
    str_eq(head, p)
}

pub fn str_ends_with(s: &str, p: &str) -> (r: bool)
    ensures
        r == is_suffix_of(p@, s@),
{
    let ns = s.unicode_len();
    let np = p.unicode_len();
    if np > ns {
        return false;
    }
    let tail = s.substring_char(ns - np, ns);
    proof {
        assert(tail@ =~= s@.skip(s@.len() - p@.len()));
    }
    str_eq(tail, p)
}

/// Uppercasing as `str::to_uppercase` performs it, named so that contracts
/// can speak of case-insensitive comparison exactly.
pub uninterp spec fn upper_of(s: Seq<char>) -> Seq<char>;

/// Relies on `str::to_uppercase`: the uppercase equivalent of the string,
/// determined by its characters alone.
#[verifier::external_body]
pub(crate) fn to_upper(s: &str) -> (r: String)
    ensures
        r@ == upper_of(s@),
{
    s.to_uppercase()
}

} // verus!
