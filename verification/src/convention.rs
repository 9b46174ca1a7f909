//! The interop calling-convention name grammar.
//!
//! A front end that wants generated code to construct a foreign object or
//! to call into the managed runtime emits a synthetic function whose
//! export name carries one of three fixed markers, followed by a decimal
//! argument count and a `_` separator:
//! `<marker><decimal-argc>_<original-name>`.  The markers are tested in a
//! fixed order — constructor, virtual interop call, non-virtual interop
//! call — and the first marker that occurs anywhere in the name wins; a
//! name with no marker is a plain call.  A marker whose count or
//! separator is malformed aborts lowering: the grammar is a closed
//! contract with the front end, and a violation is a front-end/backend
//! mismatch.

use vstd::prelude::*;

use crate::errors::CodegenError;
use crate::text::{
    all_digits, chars_of, digit_value, digits_value, find_first_from, first_match_from,
    is_decimal_digit, lemma_digits_value_nonneg, lemma_digits_value_prefix,
    lemma_first_match_found, lemma_first_match_none, lemma_first_match_some, occurs, occurs_at,
};

verus! {

/// The marker of a foreign-object constructor call.
pub open spec fn ctor_marker() -> Seq<char> {
    "__monomorphize_ctor_"@
}

/// The marker of a virtual interop call.
pub open spec fn call_virt_marker() -> Seq<char> {
    "__monomorphize_call_virt_"@
}

/// The marker of a non-virtual interop call.
pub open spec fn call_marker() -> Seq<char> {
    "__monomorphize_call_"@
}

/// The marker of a foreign-object constructor call.
pub fn ctor_fn_name() -> (r: &'static str)
    ensures
        r@ == ctor_marker(),
{
    "__monomorphize_ctor_"
}

/// The marker of a virtual interop call.
pub fn managed_call_virt_fn_name() -> (r: &'static str)
    ensures
        r@ == call_virt_marker(),
{
    "__monomorphize_call_virt_"
}

/// The marker of a non-virtual interop call.
pub fn managed_call_fn_name() -> (r: &'static str)
    ensures
        r@ == call_marker(),
{
    "__monomorphize_call_"
}

/// Which of the three interop conventions a callee name requests.
#[derive(Clone, Copy, Debug, PartialEq, Eq, Structural)]
pub enum InteropKind {
    /// Construct a foreign object.
    Ctor,
    /// Call a member of a foreign type with virtual dispatch.
    CallVirt,
    /// Call a member of a foreign type directly.
    Call,
}

/// A decoded interop convention: which convention, and how many actual
/// arguments the synthetic name declares.
#[derive(Clone, Copy, Debug, PartialEq, Eq, Structural)]
pub struct Convention {
    pub kind: InteropKind,
    pub argc: u32,
}

/// The argument count that follows a marker occurrence ending at `start`:
/// the decimal digits up to the first `_` separator at or after `start`.
pub open spec fn spec_decode_count(s: Seq<char>, start: int) -> Result<u32, CodegenError> {
    match first_match_from(s, seq!['_'], start) {
        Option::None => Err(CodegenError::MissingSeparator),
        Option::Some(sep) => {
            let digits = s.subrange(start, sep);
            if digits.len() == 0 || !all_digits(digits) || digits_value(digits) > u32::MAX as int {
                Err(CodegenError::BadArgCount)
            } else {
                Ok(digits_value(digits) as u32)
            }
        },
    }
}

/// What the callee name `s` requests: the first of the three markers that
/// occurs in `s` decides the convention, its following digits the
/// argument count; no marker means a plain call.
pub open spec fn spec_decode_name(s: Seq<char>) -> Result<Option<Convention>, CodegenError> {
    match first_match_from(s, ctor_marker(), 0) {
        Option::Some(i) => match spec_decode_count(s, i + ctor_marker().len()) {
            Ok(argc) => Ok(Some(Convention { kind: InteropKind::Ctor, argc })),
            Err(e) => Err(e),
        },
        Option::None => match first_match_from(s, call_virt_marker(), 0) {
            Option::Some(i) => match spec_decode_count(s, i + call_virt_marker().len()) {
                Ok(argc) => Ok(Some(Convention { kind: InteropKind::CallVirt, argc })),
                Err(e) => Err(e),
            },
            Option::None => match first_match_from(s, call_marker(), 0) {
                Option::Some(i) => match spec_decode_count(s, i + call_marker().len()) {
                    Ok(argc) => Ok(Some(Convention { kind: InteropKind::Call, argc })),
                    Err(e) => Err(e),
                },
                Option::None => Ok(None),
            },
        },
    }
}

/// Finds the first `_` at or after `start`.
fn find_separator(chars: &[char], start: usize) -> (r: Option<usize>)
    ensures
        (match r {
            Some(i) => first_match_from(chars@, seq!['_'], start as int) == Some(i as int),
            None => first_match_from(chars@, seq!['_'], start as int) is None,
        }),
{
    let mut i: usize = start;
    while i < chars.len()
        invariant
            start <= i,
            forall|j: int| start <= j < i ==> !occurs_at(chars@, seq!['_'], j),
        decreases chars@.len() - i,
    {
        if chars[i] == '_' {
            proof {
                assert(chars@.subrange(i as int, i + 1) =~= seq!['_']);
                lemma_sep_found(chars@, start as int, i as int);
            }
            return Some(i);
        }
        proof {
            assert(!occurs_at(chars@, seq!['_'], i as int)) by {
                if occurs_at(chars@, seq!['_'], i as int) {
                    assert(chars@.subrange(i as int, i + 1)[0] == chars@[i as int]);
                }
            }
        }
        i = i + 1;
    }
    proof {
        lemma_sep_missing(chars@, start as int, i as int);
    }
    None
}

proof fn lemma_sep_found(s: Seq<char>, start: int, i: int)
    requires
        0 <= start <= i,
        occurs_at(s, seq!['_'], i),
        forall|j: int| start <= j < i ==> !occurs_at(s, seq!['_'], j),
    ensures
        first_match_from(s, seq!['_'], start) == Some(i),
    decreases i - start,
{
    if start < i {
        lemma_sep_found(s, start + 1, i);
    }
}

proof fn lemma_sep_missing(s: Seq<char>, start: int, upto: int)
    requires
        0 <= start <= upto,
        upto >= s.len(),
        forall|j: int| start <= j < upto ==> !occurs_at(s, seq!['_'], j),
    ensures
        first_match_from(s, seq!['_'], start) is None,
    decreases upto - start,
{
    if start < upto && start + 1 <= s.len() {
        lemma_sep_missing(s, start + 1, upto);
    }
}

/// Reads the decimal argument count that follows a marker occurrence
/// ending at `start`.
fn decode_count(chars: &[char], start: usize) -> (r: Result<u32, CodegenError>)
    ensures
        r == spec_decode_count(chars@, start as int),
{
    let sep = match find_separator(chars, start) {
        Some(sep) => sep,
        None => {
            return Err(CodegenError::MissingSeparator);
        },
    };
    proof {
        lemma_first_match_some(chars@, seq!['_'], start as int, sep as int);
    }
    let ghost digits = chars@.subrange(start as int, sep as int);
    if sep == start {
        proof {
            assert(digits.len() == 0);
        }
        return Err(CodegenError::BadArgCount);
    }
    let mut i: usize = start;
    let mut value: u32 = 0;
    while i < sep
        invariant
            start <= i <= sep,
            start < sep,
            sep < chars@.len(),
            first_match_from(chars@, seq!['_'], start as int) == Some(sep as int),
            digits == chars@.subrange(start as int, sep as int),
            all_digits(digits.take(i - start)),
            value == digits_value(digits.take(i - start)),
        decreases sep - i,
    {
        let c = chars[i];
        if !('0' <= c && c <= '9') {
            proof {
                assert(digits[i - start] == c);
                assert(!all_digits(digits));
            }
            return Err(CodegenError::BadArgCount);
        }
        let d: u32 = (c as u32) - ('0' as u32);
        let wide: u64 = (value as u64) * 10 + (d as u64);
        proof {
            assert(digits.take(i - start + 1).drop_last() =~= digits.take(i - start));
            assert(digits.take(i - start + 1).last() == c);
        }
        if wide > u32::MAX as u64 {
            proof {
                lemma_digits_value_prefix_of(digits, i - start + 1);
            }
            return Err(CodegenError::BadArgCount);
        }
        value = wide as u32;
        i = i + 1;
    }
    proof {
        assert(digits.take(sep - start) =~= digits);
        lemma_digits_value_nonneg(digits);
    }
    Ok(value)
}

/// Digits beyond a prefix only grow the numeral: once a prefix exceeds a
/// bound, so does the whole count.
proof fn lemma_digits_value_prefix_of(digits: Seq<char>, k: int)
    requires
        0 <= k <= digits.len(),
        all_digits(digits.take(k)),
        digits_value(digits.take(k)) > u32::MAX as int,
    ensures
        digits.len() == 0 || !all_digits(digits) || digits_value(digits) > u32::MAX as int,
{
    if all_digits(digits) {
        lemma_digits_value_prefix(digits, k);
    }
}

/// Decides which convention, if any, the callee name `name` requests, and
/// decodes its declared argument count.  The first marker that occurs in
/// the name wins, in the order constructor, virtual call, non-virtual
/// call; `None` means a plain call.  A marker without a well-formed
/// decimal count and separator is a fatal convention violation.
pub fn decode_fn_name(name: &str) -> (r: Result<Option<Convention>, CodegenError>)
    ensures
        r == spec_decode_name(name@),
{
    let chars = chars_of(name);
    let hay_len = chars.len();
    let ctor = chars_of(ctor_fn_name());
    proof {
        lemma_marker_lens();
    }
    if let Some(i) = find_first_from(chars.as_slice(), ctor.as_slice(), 0) {
        proof {
            lemma_first_match_some(chars@, ctor_marker(), 0, i as int);
            assert(i + ctor@.len() <= hay_len);
        }
        return (match decode_count(chars.as_slice(), i + ctor.len()) {
            Ok(argc) => Ok(Some(Convention { kind: InteropKind::Ctor, argc })),
            Err(e) => Err(e),
        });
    }
    let virt = chars_of(managed_call_virt_fn_name());
    if let Some(i) = find_first_from(chars.as_slice(), virt.as_slice(), 0) {
        proof {
            lemma_first_match_some(chars@, call_virt_marker(), 0, i as int);
            assert(i + virt@.len() <= hay_len);
        }
        return (match decode_count(chars.as_slice(), i + virt.len()) {
            Ok(argc) => Ok(Some(Convention { kind: InteropKind::CallVirt, argc })),
            Err(e) => Err(e),
        });
    }
    let call = chars_of(managed_call_fn_name());
    if let Some(i) = find_first_from(chars.as_slice(), call.as_slice(), 0) {
        proof {
            lemma_first_match_some(chars@, call_marker(), 0, i as int);
            assert(i + call@.len() <= hay_len);
        }
        return (match decode_count(chars.as_slice(), i + call.len()) {
            Ok(argc) => Ok(Some(Convention { kind: InteropKind::Call, argc })),
            Err(e) => Err(e),
        });
    }
    Ok(None)
}

/// The decimal digit with value `d`.
pub open spec fn digit_char(d: int) -> char {
    if d == 0 {
        '0'
    } else if d == 1 {
        '1'
    } else if d == 2 {
        '2'
    } else if d == 3 {
        '3'
    } else if d == 4 {
        '4'
    } else if d == 5 {
        '5'
    } else if d == 6 {
        '6'
    } else if d == 7 {
        '7'
    } else if d == 8 {
        '8'
    } else {
        '9'
    }
}

/// The decimal numeral of `n`, most significant digit first.
pub open spec fn dec_digits(n: int) -> Seq<char>
    decreases n when n >= 0
{
    if n < 10 {
        seq![digit_char(n)]
    } else {
        dec_digits(n / 10).push(digit_char(n % 10))
    }
}

/// The decimal numeral of `n` is made of digits, contains no separator,
/// and reads back as `n`.
pub proof fn lemma_dec_digits(n: int)
    requires
        n >= 0,
    ensures
        dec_digits(n).len() > 0,
        all_digits(dec_digits(n)),
        forall|i: int| 0 <= i < dec_digits(n).len() ==> #[trigger] dec_digits(n)[i] != '_',
        digits_value(dec_digits(n)) == n,
    decreases n,
{
    if n < 10 {
        assert(dec_digits(n) =~= seq![digit_char(n)]);
        assert(dec_digits(n).drop_last() =~= Seq::<char>::empty());
        assert(digits_value(Seq::<char>::empty()) == 0);
        assert(dec_digits(n).last() == digit_char(n));
        assert(digits_value(dec_digits(n)) == digits_value(dec_digits(n).drop_last()) * 10
            + digit_value(dec_digits(n).last()));
    } else {
        lemma_dec_digits(n / 10);
        let prefix = dec_digits(n / 10);
        let whole = prefix.push(digit_char(n % 10));
        assert(whole.drop_last() =~= prefix);
        assert(digits_value(whole) == digits_value(prefix) * 10 + digit_value(digit_char(n % 10)));
        assert(digit_value(digit_char(n % 10)) == n % 10);
    }
}

/// The marker of each convention.
pub open spec fn marker_of(kind: InteropKind) -> Seq<char> {
    match kind {
        InteropKind::Ctor => ctor_marker(),
        InteropKind::CallVirt => call_virt_marker(),
        InteropKind::Call => call_marker(),
    }
}

/// The synthetic callee name a front end builds to request an interop
/// convention: the marker, the decimal argument count, a `_` separator,
/// and the original name.
pub open spec fn spec_encode_name(kind: InteropKind, argc: u32, rest: Seq<char>) -> Seq<char> {
    marker_of(kind) + dec_digits(argc as int) + seq!['_'] + rest
}

/// A search that finds nothing reports no occurrence, and the other way
/// round.
pub proof fn lemma_occurs_iff_found(s: Seq<char>, m: Seq<char>)
    requires
        m.len() > 0,
    ensures
        occurs(s, m) <==> first_match_from(s, m, 0) is Some,
{
    match first_match_from(s, m, 0) {
        Option::Some(i) => {
            lemma_first_match_some(s, m, 0, i);
        },
        Option::None => {
            lemma_first_match_none(s, m, 0);
            assert(forall|i: int| !occurs_at(s, m, i)) by {
                assert(forall|i: int| i < 0 ==> !occurs_at(s, m, i));
            }
        },
    }
}

/// Round trip of the name grammar: a synthetic name built from a marker,
/// an argument count and an original name decodes back to the same
/// convention and count.  A name built for the virtual or the non-virtual
/// convention must not contain the markers tested before its own: those
/// are tested first and would win.
pub proof fn lemma_name_round_trip(kind: InteropKind, argc: u32, rest: Seq<char>)
    requires
        kind is CallVirt ==> !occurs(spec_encode_name(kind, argc, rest), ctor_marker()),
        kind is Call ==> !occurs(spec_encode_name(kind, argc, rest), ctor_marker()) && !occurs(
            spec_encode_name(kind, argc, rest),
            call_virt_marker(),
        ),
    ensures
        spec_decode_name(spec_encode_name(kind, argc, rest)) == Ok::<
            Option<Convention>,
            CodegenError,
        >(Some(Convention { kind, argc })),
{
    lemma_marker_lens();
    lemma_dec_digits(argc as int);
    let m = marker_of(kind);
    let dd = dec_digits(argc as int);
    let s = spec_encode_name(kind, argc, rest);
    assert(s.len() == m.len() + dd.len() + 1 + rest.len());
    assert forall|i: int| 0 <= i < m.len() implies s[i] == m[i] by {}
    assert forall|i: int| 0 <= i < dd.len() implies s[m.len() + i] == dd[i] by {}
    assert(s[m.len() + dd.len() as int] == '_');
    // the encoding marker occurs at the very start, so it is the first
    assert(occurs_at(s, m, 0)) by {
        assert(s.subrange(0, m.len() as int) =~= m);
    }
    lemma_first_match_found(s, m, 0, 0);
    // the separator right after the digits is the first one after the marker
    let sep: int = m.len() + dd.len() as int;
    assert(occurs_at(s, seq!['_'], sep)) by {
        assert(s.subrange(sep, sep + 1) =~= seq!['_']);
    }
    assert forall|j: int| m.len() <= j < sep implies !occurs_at(s, seq!['_'], j) by {
        assert(s[j] == dd[j - m.len()]);
        assert(is_decimal_digit(dd[j - m.len()]) && dd[j - m.len()] != '_');
        if occurs_at(s, seq!['_'], j) {
            assert(s.subrange(j, j + 1)[0] == s[j]);
        }
    }
    lemma_sep_found(s, m.len() as int, sep as int);
    // the digits between marker and separator are the encoded count
    assert(s.subrange(m.len() as int, sep as int) =~= dd);
    assert(spec_decode_count(s, m.len() as int) == Ok::<u32, CodegenError>(argc));
    // the markers tested before the encoding one do not occur
    match kind {
        InteropKind::Ctor => {},
        InteropKind::CallVirt => {
            lemma_occurs_iff_found(s, ctor_marker());
        },
        InteropKind::Call => {
            lemma_occurs_iff_found(s, ctor_marker());
            lemma_occurs_iff_found(s, call_virt_marker());
        },
    }
}

/// The three markers are nonempty.
pub proof fn lemma_marker_lens()
    ensures
        ctor_marker().len() == 20,
        call_virt_marker().len() == 25,
        call_marker().len() == 20,
{
    reveal_strlit("__monomorphize_ctor_");
    reveal_strlit("__monomorphize_call_virt_");
    reveal_strlit("__monomorphize_call_");
}

} // verus!
