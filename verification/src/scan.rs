//! A verified pre-scan of the source text for version directives whose
//! number does not fit sixteen bits.
//!
//! The outside parser reads a version directive's digit run into a
//! sixteen-bit number and aborts — it does not return an error — when the
//! run's value exceeds 65535. The reflection therefore refuses such texts
//! before the parser ever sees them. The scan looks for the directive's
//! exact textual shape: a `#`, preprocessor spacing, the word `version`,
//! at least one more space, and a digit run whose value is out of range.
//! Every text on which the parser would abort contains that shape; a text
//! that contains it only somewhere the grammar never reads (inside a
//! comment, say) is refused too, which errs on the refusing side.

use vstd::prelude::*;
use vstd::string::StrSliceExecFns;

verus! {

/// The value of one decimal digit character, `-1` for anything else.
pub open spec fn spec_digit_value(c: char) -> int {
    match c {
        '0' => 0,
        '1' => 1,
        '2' => 2,
        '3' => 3,
        '4' => 4,
        '5' => 5,
        '6' => 6,
        '7' => 7,
        '8' => 8,
        '9' => 9,
        _ => -1,
    }
}

/// Whether a character is a decimal digit.
pub open spec fn is_digit_char(c: char) -> bool {
    spec_digit_value(c) >= 0
}

/// The position right after the preprocessor spacing that starts at `i`:
/// spaces, tabs, and a backslash followed by a line break all count.
pub open spec fn skip_pp_space(s: Seq<char>, i: int) -> int
    decreases s.len() - i,
{
    if 0 <= i < s.len() && (s[i] == ' ' || s[i] == '\t') {
        skip_pp_space(s, i + 1)
    } else if 0 <= i && i + 1 < s.len() && s[i] == '\\' && s[i + 1] == '\n' {
        skip_pp_space(s, i + 2)
    } else {
        i
    }
}

/// The position right after the digit run that starts at `i`.
pub open spec fn skip_digits(s: Seq<char>, i: int) -> int
    decreases s.len() - i,
{
    if 0 <= i < s.len() && is_digit_char(s[i]) {
        skip_digits(s, i + 1)
    } else {
        i
    }
}

/// The numeric value of the digit run `s[a..b]`.
pub open spec fn digits_value(s: Seq<char>, a: int, b: int) -> int
    decreases b - a,
{
    if a >= b {
        0
    } else {
        digits_value(s, a, b - 1) * 10 + spec_digit_value(s[b - 1])
    }
}

/// Whether the word `version` stands at `v`, followed by at least one unit
/// of preprocessor spacing and then a digit run whose value exceeds 65535.
/// This is the exact shape on which the outside parser reads a version
/// number it cannot hold.
pub open spec fn version_overflow_after(s: Seq<char>, v: int) -> bool {
    &&& 0 <= v
    &&& v + 7 <= s.len()
    &&& s[v] == 'v'
    &&& s[v + 1] == 'e'
    &&& s[v + 2] == 'r'
    &&& s[v + 3] == 's'
    &&& s[v + 4] == 'i'
    &&& s[v + 5] == 'o'
    &&& s[v + 6] == 'n'
    &&& ({
        let a = skip_pp_space(s, v + 7);
        let b = skip_digits(s, a);
        a > v + 7 && b > a && digits_value(s, a, b) > 65535
    })
}

/// Whether position `i` starts a `#version` directive whose number exceeds
/// 65535.
pub open spec fn hash_version_overflow_at(s: Seq<char>, i: int) -> bool {
    &&& 0 <= i < s.len()
    &&& s[i] == '#'
    &&& version_overflow_after(s, skip_pp_space(s, i + 1))
}

/// Whether the text contains, anywhere, a `#version` directive whose
/// number exceeds 65535.
pub open spec fn has_version_overflow(s: Seq<char>) -> bool {
    exists|i: int| #[trigger] hash_version_overflow_at(s, i)
}

// ------------------------------------------------------------------
// Facts about the spec functions
// ------------------------------------------------------------------

proof fn lemma_skip_pp_space_bounds(s: Seq<char>, i: int)
    requires
        0 <= i <= s.len(),
    ensures
        i <= skip_pp_space(s, i) <= s.len(),
    decreases s.len() - i,
{
    if i < s.len() && (s[i] == ' ' || s[i] == '\t') {
        lemma_skip_pp_space_bounds(s, i + 1);
    } else if i + 1 < s.len() && s[i] == '\\' && s[i + 1] == '\n' {
        lemma_skip_pp_space_bounds(s, i + 2);
    }
}

proof fn lemma_skip_digits_bounds(s: Seq<char>, i: int)
    requires
        0 <= i <= s.len(),
    ensures
        i <= skip_digits(s, i) <= s.len(),
    decreases s.len() - i,
{
    if i < s.len() && is_digit_char(s[i]) {
        lemma_skip_digits_bounds(s, i + 1);
    }
}

/// Every character of the run `[i, skip_digits(s, i))` is a digit.
proof fn lemma_skip_digits_all_digits(s: Seq<char>, i: int)
    requires
        0 <= i <= s.len(),
    ensures
        forall|k: int| i <= k < skip_digits(s, i) ==> is_digit_char(#[trigger] s[k]),
    decreases s.len() - i,
{
    if i < s.len() && is_digit_char(s[i]) {
        lemma_skip_digits_all_digits(s, i + 1);
    }
}

/// A run of digits has a non-negative value.
proof fn lemma_digits_value_nonneg(s: Seq<char>, a: int, b: int)
    requires
        a <= b,
        forall|k: int| a <= k < b ==> is_digit_char(#[trigger] s[k]),
    ensures
        digits_value(s, a, b) >= 0,
    decreases b - a,
{
    if a < b {
        lemma_digits_value_nonneg(s, a, b - 1);
    }
}

/// Extending a digit run to the right cannot shrink its value.
proof fn lemma_digits_value_mono(s: Seq<char>, a: int, k: int, b: int)
    requires
        a <= k <= b,
        forall|j: int| a <= j < b ==> is_digit_char(#[trigger] s[j]),
    ensures
        digits_value(s, a, b) >= digits_value(s, a, k),
    decreases b - k,
{
    if k < b {
        lemma_digits_value_mono(s, a, k, b - 1);
        lemma_digits_value_nonneg(s, a, b - 1);
    }
}

// ------------------------------------------------------------------
// The exec scan
// ------------------------------------------------------------------

/// The value of one decimal digit character.
fn digit_value(c: char) -> (r: Option<u32>)
    ensures
        match r {
            Some(v) => v == spec_digit_value(c),
            None => !is_digit_char(c),
        },
{
    match c {
        '0' => Some(0),
        '1' => Some(1),
        '2' => Some(2),
        '3' => Some(3),
        '4' => Some(4),
        '5' => Some(5),
        '6' => Some(6),
        '7' => Some(7),
        '8' => Some(8),
        '9' => Some(9),
        _ => None,
    }
}

/// Walks past preprocessor spacing, mirroring [`skip_pp_space`].
fn skip_spaces(slice: &str, p: usize) -> (r: usize)
    requires
        p <= slice@.len(),
    ensures
        r == skip_pp_space(slice@, p as int),
        p <= r <= slice@.len(),
    decreases slice@.len() - p,
{
    let n = slice.unicode_len();
    if p < n {
        let c = slice.get_char(p);
        if c == ' ' || c == '\t' {
            return skip_spaces(slice, p + 1);
        }
        if c == '\\' && p + 1 < n {
            if slice.get_char(p + 1) == '\n' {
                return skip_spaces(slice, p + 2);
            }
        }
    }
    p
}

/// Walks past a digit run, mirroring [`skip_digits`].
fn skip_digit_run(slice: &str, p: usize) -> (r: usize)
    requires
        p <= slice@.len(),
    ensures
        r == skip_digits(slice@, p as int),
        p <= r <= slice@.len(),
    decreases slice@.len() - p,
{
    let n = slice.unicode_len();
    if p < n {
        let c = slice.get_char(p);
        if digit_value(c).is_some() {
            return skip_digit_run(slice, p + 1);
        }
    }
    p
}

/// Whether the digit run `[a, b)` has a value above 65535. Stops as soon as
/// the accumulated value is already out of range: the remaining digits can
/// only grow it.
fn digit_run_overflows(slice: &str, a: usize, b: usize) -> (r: bool)
    requires
        a <= b <= slice@.len(),
        b == skip_digits(slice@, a as int),
    ensures
        r == (digits_value(slice@, a as int, b as int) > 65535),
{
    proof {
        lemma_skip_digits_all_digits(slice@, a as int);
    }
    let mut value: u32 = 0;
    let mut k = a;
    while k < b
        invariant
            a <= k <= b <= slice@.len(),
            b == skip_digits(slice@, a as int),
            forall|j: int| a <= j < b ==> is_digit_char(#[trigger] slice@[j]),
            value <= 655359,
            value == digits_value(slice@, a as int, k as int),
        decreases b - k,
    {
        if value > 65535 {
            proof {
                lemma_digits_value_mono(slice@, a as int, k as int, b as int);
            }
            return true;
        }
        let c = slice.get_char(k);
        let d = match digit_value(c) {
            Some(d) => d,
            None => 0,
        };
        value = value * 10 + d;
        k = k + 1;
    }
    value > 65535
}

/// Whether [`version_overflow_after`] holds at `v`.
fn version_overflow_from(slice: &str, v: usize) -> (r: bool)
    requires
        v <= slice@.len(),
    ensures
        r == version_overflow_after(slice@, v as int),
{
    let n = slice.unicode_len();
    if n - v < 7 {
        return false;
    }
    if slice.get_char(v) != 'v' || slice.get_char(v + 1) != 'e' || slice.get_char(v + 2) != 'r'
        || slice.get_char(v + 3) != 's' || slice.get_char(v + 4) != 'i'
        || slice.get_char(v + 5) != 'o' || slice.get_char(v + 6) != 'n' {
        return false;
    }
    let a = skip_spaces(slice, v + 7);
    if a == v + 7 {
        return false;
    }
    let b = skip_digit_run(slice, a);
    if b == a {
        return false;
    }
    digit_run_overflows(slice, a, b)
}

/// Whether the text contains a `#version` directive whose number exceeds
/// 65535 — the texts on which the outside parser would abort rather than
/// return.
pub fn version_overflows(s: &String) -> (r: bool)
    ensures
        r == has_version_overflow(s@),
{
    let slice = s.as_str();
    let n = slice.unicode_len();
    for i in 0..n
        invariant
            slice@ == s@,
            n == s@.len(),
            forall|j: int| 0 <= j < i ==> !#[trigger] hash_version_overflow_at(s@, j),
    {
        let c = slice.get_char(i);
        if c == '#' {
            let v = skip_spaces(slice, i + 1);
            if version_overflow_from(slice, v) {
                proof {
                    assert(hash_version_overflow_at(s@, i as int));
                }
                return true;
            }
        }
        proof {
            assert(!hash_version_overflow_at(s@, i as int));
        }
    }
    proof {
        assert(!has_version_overflow(s@)) by {
            if has_version_overflow(s@) {
                let i = choose|i: int| hash_version_overflow_at(s@, i);
                assert(0 <= i < s@.len());
            }
        }
    }
    false
}

} // verus!
