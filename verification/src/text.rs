//! Decimal rendering of integers and small helpers on text.

use vstd::prelude::*;
use vstd::string::*;

verus! {

/// The character that stands for one decimal digit.
pub open spec fn digit_char(d: nat) -> char {
    if d == 0 {
        '0'
    } else if d == 1 {
        '1'
    } else if d == 2 {
        '2'
    } else if d == 3 {
        '3'
    } else if d == 4 {
        '4'
    } else if d == 5 {
        '5'
    } else if d == 6 {
        '6'
    } else if d == 7 {
        '7'
    } else if d == 8 {
        '8'
    } else {
        '9'
    }
}

/// The decimal digits of a natural number, most significant first, without
/// leading zeros.
pub open spec fn digits(n: nat) -> Seq<char>
    decreases n,
{
    if n < 10 {
        seq![digit_char(n)]
    } else {
        digits(n / 10).push(digit_char(n % 10))
    }
}

/// The decimal rendering of an integer: a minus sign for a negative number,
/// then the digits of its magnitude.
pub open spec fn decimal(n: int) -> Seq<char> {
    if n < 0 {
        seq!['-'] + digits((-n) as nat)
    } else {
        digits(n as nat)
    }
}

/// Whether `suffix` is what `s` ends with.
pub open spec fn ends_with_spec(s: Seq<char>, suffix: Seq<char>) -> bool {
    suffix.len() <= s.len() && s.subrange(s.len() - suffix.len(), s.len() as int) == suffix
}

fn digit_str(d: u64) -> (r: &'static str)
    requires
        d < 10,
    ensures
        r@ == seq![digit_char(d as nat)],
{
    proof {
        reveal_strlit("0");
        reveal_strlit("1");
        reveal_strlit("2");
        reveal_strlit("3");
        reveal_strlit("4");
        reveal_strlit("5");
        reveal_strlit("6");
        reveal_strlit("7");
        reveal_strlit("8");
        reveal_strlit("9");
    }
    let r = if d == 0 {
        "0"
    } else if d == 1 {
        "1"
    } else if d == 2 {
        "2"
    } else if d == 3 {
        "3"
    } else if d == 4 {
        "4"
    } else if d == 5 {
        "5"
    } else if d == 6 {
        "6"
    } else if d == 7 {
        "7"
    } else if d == 8 {
        "8"
    } else {
        "9"
    };
    assert(r@ =~= seq![digit_char(d as nat)]);
    r
}

fn push_digits(out: &mut String, n: u64)
    ensures
        final(out)@ == old(out)@ + digits(n as nat),
    decreases n,
{
    if n >= 10 {
        push_digits(out, n / 10);
    }
    out.append(digit_str(n % 10));
    assert(out@ =~= old(out)@ + digits(n as nat));
}

/// Appends the decimal rendering of `n` to `out`.
pub fn push_decimal(out: &mut String, n: i64)
    ensures
        final(out)@ == old(out)@ + decimal(n as int),
{
    if n < 0 {
        proof {
            reveal_strlit("-");
        }
        out.append("-");
        let magnitude: u64 = if n == i64::MIN {
            9223372036854775808u64
        } else {
            (-n) as u64
        };
        push_digits(out, magnitude);
        assert(out@ =~= old(out)@ + decimal(n as int));
    } else {
        push_digits(out, n as u64);
    }
}

/// The decimal rendering of `n` as a string of its own.
pub fn decimal_string(n: i64) -> (r: String)
    ensures
        r@ == decimal(n as int),
{
    let mut out = String::new();
    push_decimal(&mut out, n);
    assert(out@ =~= decimal(n as int));
    out
}

/// Tells whether `s` ends with `suffix`.
pub fn ends_with(s: &str, suffix: &str) -> (r: bool)
    ensures
        r == ends_with_spec(s@, suffix@),
{
    let n: usize = s.unicode_len();
    let m: usize = suffix.unicode_len();
    if m > n {
        return false;
    }
    let start: usize = n - m;
    let mut i: usize = 0;
    while i < m
        invariant
            n == s@.len(),
            m == suffix@.len(),
            m <= n,
            start == n - m,
            i <= m,
            forall|k: int| 0 <= k < i ==> s@[start + k] == suffix@[k],
        decreases m - i,
    {
        if s.get_char(start + i) != suffix.get_char(i) {
            proof {
                assert(s@.subrange(start as int, n as int)[i as int] == s@[start + i]);
            }
            return false;
        }
        i = i + 1;
    }
    assert(s@.subrange(start as int, n as int) =~= suffix@);
    true
}

/// A line without its line ending: one closing line feed is dropped, and a
/// carriage return before it as well.
pub open spec fn trim_newline_spec(s: Seq<char>) -> Seq<char> {
    if s.len() > 0 && s.last() == '\n' {
        let rest = s.drop_last();
        if rest.len() > 0 && rest.last() == '\r' {
            rest.drop_last()
        } else {
            rest
        }
    } else {
        s
    }
}

/// Removes the line ending from a line that was read.
pub fn trim_newline(s: &mut String)
    ensures
        final(s)@ == trim_newline_spec(old(s)@),
{
    let n: usize = s.as_str().unicode_len();
    if n > 0 && s.as_str().get_char(n - 1) == '\n' {
        let mut end: usize = n - 1;
        if end > 0 && s.as_str().get_char(end - 1) == '\r' {
            end = end - 1;
        }
        let kept = String::from_str(s.as_str().substring_char(0, end));
        proof {
            assert(old(s)@.drop_last() =~= old(s)@.subrange(0, n - 1));
            assert(kept@ =~= trim_newline_spec(old(s)@));
        }
        *s = kept;
    }
}

} // verus!
