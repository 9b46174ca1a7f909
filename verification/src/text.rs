//! Character-sequence groundwork for the interop naming convention:
//! conversion of a name to its characters, decimal digits and their
//! value, and first-occurrence substring search.

use vstd::prelude::*;

verus! {

broadcast use vstd::string::next_postcondition, vstd::string::axiom_spec_iter;

/// The characters of `s`, in order.
pub fn chars_of(s: &str) -> (r: Vec<char>)
    ensures
        r@ == s@,
{
    let mut it = s.chars();
    let mut r: Vec<char> = Vec::new();
    loop
        invariant
            vstd::std_specs::iter::IteratorSpec::obeys_prophetic_iter_laws(&it),
            vstd::std_specs::iter::IteratorSpec::decrease(&it) is Some,
            r@ + vstd::std_specs::iter::IteratorSpec::remaining(&it) == s@,
        ensures
            r@ == s@,
        decreases vstd::std_specs::iter::IteratorSpec::decrease(&it)->0,
    {
        match it.next() {
            Some(c) => {
                r.push(c);
                proof {
                    assert(r@ + vstd::std_specs::iter::IteratorSpec::remaining(&it) =~= s@);
                }
            },
            None => {
                proof {
                    assert(r@ =~= s@);
                }
                break ;
            },
        }
    }
    r
}

/// Whether `c` is a decimal digit.
pub open spec fn is_decimal_digit(c: char) -> bool {
    '0' <= c && c <= '9'
}

/// The value of one decimal digit.
pub open spec fn digit_value(c: char) -> int {
    c as int - '0' as int
}

/// Whether every character of `s` is a decimal digit.
pub open spec fn all_digits(s: Seq<char>) -> bool {
    forall|i: int| 0 <= i < s.len() ==> is_decimal_digit(#[trigger] s[i])
}

/// The value of `s` read as a decimal numeral, most significant digit
/// first.
pub open spec fn digits_value(s: Seq<char>) -> int
    decreases s.len(),
{
    if s.len() == 0 {
        0
    } else {
        digits_value(s.drop_last()) * 10 + digit_value(s.last())
    }
}

pub proof fn lemma_digits_value_nonneg(s: Seq<char>)
    requires
        all_digits(s),
    ensures
        digits_value(s) >= 0,
    decreases s.len(),
{
    if s.len() > 0 {
        assert(all_digits(s.drop_last()));
        lemma_digits_value_nonneg(s.drop_last());
    }
}

/// A decimal numeral is at least as large as the numeral made of any
/// prefix of its digits.
pub proof fn lemma_digits_value_prefix(s: Seq<char>, k: int)
    requires
        all_digits(s),
        0 <= k <= s.len(),
    ensures
        digits_value(s) >= digits_value(s.take(k)),
    decreases s.len() - k,
{
    if k < s.len() {
        assert(all_digits(s.take(k)));
        lemma_digits_value_nonneg(s.take(k));
        assert(s.take(k + 1).drop_last() =~= s.take(k));
        assert(s.take(k + 1).last() == s[k]);
        lemma_digits_value_prefix(s, k + 1);
    } else {
        assert(s.take(k) =~= s);
    }
}

/// Whether the pattern `m` occurs in `s` at position `i`.
pub open spec fn occurs_at(s: Seq<char>, m: Seq<char>, i: int) -> bool {
    &&& 0 <= i
    &&& i + m.len() <= s.len()
    &&& s.subrange(i, i + m.len()) == m
}

/// Whether the pattern `m` occurs anywhere in `s`.
pub open spec fn occurs(s: Seq<char>, m: Seq<char>) -> bool {
    exists|i: int| occurs_at(s, m, i)
}

/// The first position at or after `from` where the nonempty pattern `m`
/// occurs in `s`, if any.
pub open spec fn first_match_from(s: Seq<char>, m: Seq<char>, from: int) -> Option<int>
    decreases s.len() - from when from >= 0
{
    if from < 0 || m.len() == 0 || from + m.len() > s.len() {
        None
    } else if occurs_at(s, m, from) {
        Some(from)
    } else {
        first_match_from(s, m, from + 1)
    }
}

pub proof fn lemma_first_match_some(s: Seq<char>, m: Seq<char>, from: int, i: int)
    requires
        m.len() > 0,
        from >= 0,
        first_match_from(s, m, from) == Some(i),
    ensures
        occurs_at(s, m, i),
        from <= i,
        forall|j: int| from <= j < i ==> !occurs_at(s, m, j),
    decreases s.len() - from,
{
    if from >= 0 && from + m.len() <= s.len() && !occurs_at(s, m, from) {
        lemma_first_match_some(s, m, from + 1, i);
    }
}

pub proof fn lemma_first_match_none(s: Seq<char>, m: Seq<char>, from: int)
    requires
        m.len() > 0,
        first_match_from(s, m, from) is None,
        from >= 0,
    ensures
        forall|j: int| from <= j ==> !occurs_at(s, m, j),
    decreases s.len() - from,
{
    if from + m.len() <= s.len() {
        lemma_first_match_none(s, m, from + 1);
    }
}

/// The first position at or after `from` where `m` occurs in `s`, found
/// by direct comparison.
pub fn find_first_from(hay: &[char], needle: &[char], from: usize) -> (r: Option<usize>)
    ensures
        (match r {
            Some(i) => first_match_from(hay@, needle@, from as int) == Some(i as int),
            None => first_match_from(hay@, needle@, from as int) is None,
        }),
{
    if needle.len() == 0 {
        return None;
    }
    if from > hay.len() || needle.len() > hay.len() - from {
        proof {
            lemma_no_match_when_short(hay@, needle@, from as int);
        }
        return None;
    }
    let mut i: usize = from;
    while i <= hay.len() - needle.len()
        invariant
            from <= i,
            needle@.len() > 0,
            needle@.len() <= hay@.len(),
            hay@.len() <= usize::MAX,
            i <= hay@.len() - needle@.len() + 1,
            forall|j: int| from <= j < i ==> !occurs_at(hay@, needle@, j),
        decreases hay@.len() - i,
    {
        let mut j: usize = 0;
        let mut matched: bool = true;
        while j < needle.len()
            invariant
                i + needle@.len() <= hay@.len(),
                hay@.len() <= usize::MAX,
                j <= needle@.len(),
                matched ==> forall|k: int| 0 <= k < j ==> hay@[i + k] == needle@[k],
                !matched ==> exists|k: int|
                    0 <= k < needle@.len() && hay@[i + k] != needle@[k],
            decreases needle@.len() - j,
        {
            if hay[i + j] != needle[j] {
                matched = false;
                j = needle.len();
            } else {
                j = j + 1;
            }
        }
        if matched {
            proof {
                assert(hay@.subrange(i as int, i + needle@.len()) =~= needle@);
                lemma_first_match_found(hay@, needle@, from as int, i as int);
            }
            return Some(i);
        }
        proof {
            assert(!occurs_at(hay@, needle@, i as int)) by {
                if occurs_at(hay@, needle@, i as int) {
                    let k = choose|k: int|
                        0 <= k < needle@.len() && hay@[i + k] != needle@[k];
                    assert(hay@.subrange(i as int, i + needle@.len())[k] == hay@[i + k]);
                }
            }
        }
        i = i + 1;
    }
    proof {
        lemma_no_match_when_short(hay@, needle@, i as int);
        lemma_first_match_steps(hay@, needle@, from as int, i as int);
    }
    None
}

/// No occurrence fits at or after `from` when fewer than `m.len()`
/// characters remain there.
proof fn lemma_no_match_when_short(s: Seq<char>, m: Seq<char>, from: int)
    requires
        from >= 0,
        from + m.len() > s.len(),
    ensures
        first_match_from(s, m, from) is None,
        forall|j: int| from <= j ==> !occurs_at(s, m, j),
{
}

/// When nothing matches between `from` and a match at `i`, the search
/// from `from` finds `i`.
pub proof fn lemma_first_match_found(s: Seq<char>, m: Seq<char>, from: int, i: int)
    requires
        m.len() > 0,
        0 <= from <= i,
        occurs_at(s, m, i),
        forall|j: int| from <= j < i ==> !occurs_at(s, m, j),
    ensures
        first_match_from(s, m, from) == Some(i),
    decreases i - from,
{
    if from < i {
        lemma_first_match_found(s, m, from + 1, i);
    }
}

/// When nothing matches between `from` and `upto`, the searches from the
/// two positions agree.
proof fn lemma_first_match_steps(s: Seq<char>, m: Seq<char>, from: int, upto: int)
    requires
        0 <= from <= upto,
        forall|j: int| from <= j < upto ==> !occurs_at(s, m, j),
    ensures
        first_match_from(s, m, from) == first_match_from(s, m, upto),
    decreases upto - from,
{
    if from < upto {
        lemma_first_match_steps(s, m, from + 1, upto);
    }
}

} // verus!
