//! Verified text helpers: decimal rendering of counts and the pluralisation
//! rule used by the human-readable summaries.

use vstd::prelude::*;
use vstd::string::StrSliceExecFns;

verus! {

/// The character for one decimal digit.
pub open spec fn digit_char(d: nat) -> char {
    if d == 0 {
        '0'
    } else if d == 1 {
        '1'
    } else if d == 2 {
        '2'
    } else if d == 3 {
        '3'
    } else if d == 4 {
        '4'
    } else if d == 5 {
        '5'
    } else if d == 6 {
        '6'
    } else if d == 7 {
        '7'
    } else if d == 8 {
        '8'
    } else {
        '9'
    }
}

/// The decimal rendering of a natural number, most significant digit first.
pub open spec fn spec_decimal(n: nat) -> Seq<char>
    decreases n,
{
    if n < 10 {
        seq![digit_char(n)]
    } else {
        spec_decimal(n / 10) + seq![digit_char(n % 10)]
    }
}

/// What `pluralise` returns: the label itself for a count of one, the label
/// with `"s"` appended for any other count.
pub open spec fn spec_pluralise(prefix: Seq<char>, count: nat) -> Seq<char> {
    if count == 1 {
        prefix
    } else {
        prefix + "s"@
    }
}

/// One decimal digit as a string slice.
fn digit_str(d: usize) -> (r: &'static str)
    requires
        d < 10,
    ensures
        r@ == seq![digit_char(d as nat)],
{
    proof {
        reveal_strlit("0");
        reveal_strlit("1");
        reveal_strlit("2");
        reveal_strlit("3");
        reveal_strlit("4");
        reveal_strlit("5");
        reveal_strlit("6");
        reveal_strlit("7");
        reveal_strlit("8");
        reveal_strlit("9");
    }
    let r: &'static str = match d {
        0 => "0",
        1 => "1",
        2 => "2",
        3 => "3",
        4 => "4",
        5 => "5",
        6 => "6",
        7 => "7",
        8 => "8",
        _ => "9",
    };
    proof {
        assert(r@ =~= seq![digit_char(d as nat)]);
    }
    r
}

/// The decimal rendering of `n`, most significant digit first.
pub fn decimal_str(n: usize) -> (r: String)
    ensures
        r@ == spec_decimal(n as nat),
    decreases n,
{
    let d = digit_str(n % 10);
    if n < 10 {
        let r = String::from_str(d);
        proof {
            assert(r@ =~= spec_decimal(n as nat));
        }
        r
    } else {
        let mut r = decimal_str(n / 10);
        r.append(d);
        proof {
            assert(r@ =~= spec_decimal(n as nat));
        }
        r
    }
}

/// The label for a count: unchanged when the count is exactly one, with an
/// `"s"` appended for zero or for two and more.
pub fn pluralise(prefix: &str, count: usize) -> (r: String)
    ensures
        r@ == spec_pluralise(prefix@, count as nat),
{
    if count != 1 {
        let mut r = String::from_str(prefix);
        r.append("s");
        r
    } else {
        String::from_str(prefix)
    }
}

/// The lower-case counterpart of one character: ASCII capital letters are
/// mapped, every other character stays.
pub open spec fn spec_lower_char(c: char) -> char {
    match c {
        'A' => 'a',
        'B' => 'b',
        'C' => 'c',
        'D' => 'd',
        'E' => 'e',
        'F' => 'f',
        'G' => 'g',
        'H' => 'h',
        'I' => 'i',
        'J' => 'j',
        'K' => 'k',
        'L' => 'l',
        'M' => 'm',
        'N' => 'n',
        'O' => 'o',
        'P' => 'p',
        'Q' => 'q',
        'R' => 'r',
        'S' => 's',
        'T' => 't',
        'U' => 'u',
        'V' => 'v',
        'W' => 'w',
        'X' => 'x',
        'Y' => 'y',
        'Z' => 'z',
        _ => c,
    }
}

/// A string lowered character by character: ASCII capital letters are
/// mapped, everything else stays.
pub open spec fn spec_lower(s: Seq<char>) -> Seq<char> {
    Seq::new(s.len(), |i: int| spec_lower_char(s[i]))
}

/// The lower-case string slice for an ASCII capital letter, `None` for any
/// other character.
fn lower_char_str(c: char) -> (r: Option<&'static str>)
    ensures
        match r {
            Some(l) => l@ == seq![spec_lower_char(c)] && c != spec_lower_char(c),
            None => c == spec_lower_char(c),
        },
{
    let r: Option<&'static str> = match c {
        'A' => Some("a"),
        'B' => Some("b"),
        'C' => Some("c"),
        'D' => Some("d"),
        'E' => Some("e"),
        'F' => Some("f"),
        'G' => Some("g"),
        'H' => Some("h"),
        'I' => Some("i"),
        'J' => Some("j"),
        'K' => Some("k"),
        'L' => Some("l"),
        'M' => Some("m"),
        'N' => Some("n"),
        'O' => Some("o"),
        'P' => Some("p"),
        'Q' => Some("q"),
        'R' => Some("r"),
        'S' => Some("s"),
        'T' => Some("t"),
        'U' => Some("u"),
        'V' => Some("v"),
        'W' => Some("w"),
        'X' => Some("x"),
        'Y' => Some("y"),
        'Z' => Some("z"),
        _ => None,
    };
    proof {
        reveal_strlit("a");
        reveal_strlit("b");
        reveal_strlit("c");
        reveal_strlit("d");
        reveal_strlit("e");
        reveal_strlit("f");
        reveal_strlit("g");
        reveal_strlit("h");
        reveal_strlit("i");
        reveal_strlit("j");
        reveal_strlit("k");
        reveal_strlit("l");
        reveal_strlit("m");
        reveal_strlit("n");
        reveal_strlit("o");
        reveal_strlit("p");
        reveal_strlit("q");
        reveal_strlit("r");
        reveal_strlit("s");
        reveal_strlit("t");
        reveal_strlit("u");
        reveal_strlit("v");
        reveal_strlit("w");
        reveal_strlit("x");
        reveal_strlit("y");
        reveal_strlit("z");
        assert(match r {
            Some(l) => l@ =~= seq![spec_lower_char(c)],
            None => true,
        });
    }
    r
}

/// The string lowered character by character: ASCII capital letters are
/// mapped, every other character stays as it is.
pub fn ascii_lower(s: &String) -> (r: String)
    ensures
        r@ == spec_lower(s@),
{
    let mut r = String::new();
    let slice = s.as_str();
    let n = slice.unicode_len();
    for i in 0..n
        invariant
            n == slice@.len(),
            slice@ == s@,
            r@ == spec_lower(s@).take(i as int),
    {
        let c = slice.get_char(i);
        match lower_char_str(c) {
            Some(l) => {
                r.append(l);
            },
            None => {
                let one = slice.substring_char(i, i + 1);
                proof {
                    assert(one@ =~= seq![s@[i as int]]);
                }
                r.append(one);
            },
        }
        proof {
            assert(r@ =~= spec_lower(s@).take(i + 1));
        }
    }
    proof {
        assert(spec_lower(s@).take(n as int) =~= spec_lower(s@));
    }
    r
}

} // verus!
