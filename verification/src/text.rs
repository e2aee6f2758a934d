//! Text primitives: decimal rendering of integers, substring matching,
//! and simple column padding.

use vstd::prelude::*;

verus! {

/// The decimal digit character for a value between 0 and 9.
pub open spec fn digit_char(d: int) -> char {
    if d == 0 {
        '0'
    } else if d == 1 {
        '1'
    } else if d == 2 {
        '2'
    } else if d == 3 {
        '3'
    } else if d == 4 {
        '4'
    } else if d == 5 {
        '5'
    } else if d == 6 {
        '6'
    } else if d == 7 {
        '7'
    } else if d == 8 {
        '8'
    } else {
        '9'
    }
}

/// The decimal rendering of a non-negative integer, without sign and
/// without leading zeros (except for the single digit of zero itself).
pub open spec fn dec_digits(n: int) -> Seq<char>
    recommends
        n >= 0,
    decreases n,
{
    if n < 10 {
        seq![digit_char(n)]
    } else {
        dec_digits(n / 10).push(digit_char(n % 10))
    }
}

/// The decimal rendering of an integer, with a leading minus sign when it
/// is negative.
pub open spec fn dec_int(n: int) -> Seq<char> {
    if n < 0 {
        seq!['-'] + dec_digits(-n)
    } else {
        dec_digits(n)
    }
}

fn digit_string(d: u64) -> (r: String)
    requires
        d < 10,
    ensures
        r@ =~= seq![digit_char(d as int)],
{
    if d == 0 {
        proof {
            reveal_strlit("0");
        }
        String::from_str("0")
    } else if d == 1 {
        proof {
            reveal_strlit("1");
        }
        String::from_str("1")
    } else if d == 2 {
        proof {
            reveal_strlit("2");
        }
        String::from_str("2")
    } else if d == 3 {
        proof {
            reveal_strlit("3");
        }
        String::from_str("3")
    } else if d == 4 {
        proof {
            reveal_strlit("4");
        }
        String::from_str("4")
    } else if d == 5 {
        proof {
            reveal_strlit("5");
        }
        String::from_str("5")
    } else if d == 6 {
        proof {
            reveal_strlit("6");
        }
        String::from_str("6")
    } else if d == 7 {
        proof {
            reveal_strlit("7");
        }
        String::from_str("7")
    } else if d == 8 {
        proof {
            reveal_strlit("8");
        }
        String::from_str("8")
    } else {
        proof {
            reveal_strlit("9");
        }
        String::from_str("9")
    }
}

/// Renders an unsigned integer in decimal.
pub fn u64_string(n: u64) -> (r: String)
    ensures
        r@ == dec_digits(n as int),
    decreases n,
{
    if n < 10 {
        let r = digit_string(n);
        proof {
            assert(r@ =~= dec_digits(n as int));
        }
        r
    } else {
        let mut r = u64_string(n / 10);
        let last = digit_string(n % 10);
        r.append(last.as_str());
        proof {
            assert(r@ =~= dec_digits(n as int));
        }
        r
    }
}

/// Renders a signed integer in decimal, with a minus sign when negative.
pub fn i64_string(n: i64) -> (r: String)
    ensures
        r@ == dec_int(n as int),
{
    if n >= 0 {
        u64_string(n as u64)
    } else {
        let magnitude: u64 = ((-(n + 1)) as u64) + 1;
        proof {
            reveal_strlit("-");
        }
        let mut r = String::from_str("-");
        let digits = u64_string(magnitude);
        r.append(digits.as_str());
        proof {
            assert(magnitude as int == -(n as int));
            assert(r@ =~= dec_int(n as int));
        }
        r
    }
}

/// Whether `pat` occurs in `name` as a contiguous subsequence, at any
/// position.  The empty pattern occurs in every name.
pub open spec fn is_match(pat: Seq<char>, name: Seq<char>) -> bool {
    exists|i: int|
        0 <= i && i + pat.len() <= name.len() && #[trigger] name.subrange(i, i + pat.len()) == pat
}

fn contains_at(name: &str, pat: &str, i: usize) -> (r: bool)
    requires
        i + pat@.len() <= name@.len(),
        i + pat@.len() <= usize::MAX,
    ensures
        r == (name@.subrange(i as int, i + pat@.len()) == pat@),
{
    let m = pat.unicode_len();
    let mut j: usize = 0;
    while j < m
        invariant
            j <= m,
            m == pat@.len(),
            i + m <= name@.len(),
            i + m <= usize::MAX,
            forall|k: int| 0 <= k < j ==> name@[i + k] == pat@[k],
        decreases m - j,
    {
        if name.get_char(i + j) != pat.get_char(j) {
            proof {
                assert(name@.subrange(i as int, i + pat@.len())[j as int] != pat@[j as int]);
            }
            return false;
        }
        j += 1;
    }
    proof {
        assert(name@.subrange(i as int, i + pat@.len()) =~= pat@);
    }
    true
}

/// Whether `pat` occurs anywhere in `name`, case-sensitive.
pub fn contains_pattern(name: &str, pat: &str) -> (r: bool)
    ensures
        r == is_match(pat@, name@),
{
    let n = name.unicode_len();
    let m = pat.unicode_len();
    if m > n {
        return false;
    }
    if m == 0 {
        proof {
            assert(name@.subrange(0, 0 + pat@.len() as int) =~= pat@);
        }
        return true;
    }
    let mut i: usize = 0;
    while i < n - m + 1
        invariant
            0 < m <= n,
            n == name@.len(),
            m == pat@.len(),
            i <= n - m + 1,
            forall|k: int|
                0 <= k < i ==> #[trigger] name@.subrange(k, k + pat@.len()) != pat@,
        decreases n - m + 1 - i,
    {
        if contains_at(name, pat, i) {
            return true;
        }
        i += 1;
    }
    false
}

/// `s` followed by as many spaces as it takes to reach `width` characters;
/// `s` unchanged when it is already that wide.
pub open spec fn padded(s: Seq<char>, width: int) -> Seq<char>
    decreases width - s.len(),
{
    if s.len() < width {
        padded(s.push(' '), width)
    } else {
        s
    }
}

/// Pads a string with trailing spaces to at least `width` characters.
pub fn pad_to(s: &str, width: usize) -> (r: String)
    ensures
        r@ == padded(s@, width as int),
{
    let mut r = s.to_owned();
    let mut len = s.unicode_len();
    while len < width
        invariant
            len == r@.len(),
            padded(r@, width as int) == padded(s@, width as int),
        decreases width - len,
    {
        let ghost before: Seq<char> = r@;
        r.append(" ");
        len += 1;
        proof {
            reveal_strlit(" ");
            assert(r@ =~= before.push(' '));
        }
    }
    r
}

/// A horizontal rule of `n` dashes.
pub fn dashes(n: usize) -> (r: String)
    ensures
        r@ =~= Seq::new(n as nat, |k: int| '-'),
{
    let mut r = String::new();
    let mut i: usize = 0;
    while i < n
        invariant
            i <= n,
            r@ =~= Seq::new(i as nat, |k: int| '-'),
        decreases n - i,
    {
        r.append("-");
        i += 1;
        proof {
            reveal_strlit("-");
            assert(r@ =~= Seq::new(i as nat, |k: int| '-'));
        }
    }
    r
}

} // verus!
