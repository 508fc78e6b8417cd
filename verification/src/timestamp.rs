//! Reading a point in time from what a user typed: seconds since the epoch
//! in digits, an RFC 3339 text, or `YYYY-MM-DD HH:MM:SS` with or without a
//! closing ` UTC`.

use vstd::prelude::*;
use vstd::string::*;
use chrono::{DateTime, NaiveDateTime};
use regex::Regex;
use crate::text::{decimal, digit_char, digits};

verus! {

/// Whether a character is one of `0` to `9`.
pub open spec fn is_digit(c: char) -> bool {
    48 <= c as u32 <= 57
}

/// The value of a digit; zero for any other character.
pub open spec fn digit_value(c: char) -> nat {
    if is_digit(c) {
        (c as u32 - 48) as nat
    } else {
        0
    }
}

/// The number that a sequence of digits writes in base ten.
pub open spec fn number_spec(s: Seq<char>) -> nat
    decreases s.len(),
{
    if s.len() == 0 {
        0
    } else {
        number_spec(s.drop_last()) * 10 + digit_value(s.last())
    }
}

/// The number written by a text that holds digits only, at least one, and
/// stays within `i64`; `None` for every other text.
pub open spec fn parse_decimal_spec(s: Seq<char>) -> Option<i64> {
    if s.len() > 0 && (forall|i: int| 0 <= i < s.len() ==> is_digit(#[trigger] s[i]))
        && number_spec(s) <= i64::MAX {
        Some(number_spec(s) as i64)
    } else {
        None
    }
}

/// Whether a pattern matches somewhere in a text; `None` where the pattern
/// does not compile.
pub uninterp spec fn regex_match(pattern: Seq<char>, text: Seq<char>) -> Option<bool>;

/// The seconds since the epoch of a date and time without a zone that is
/// read from a text by a format; `None` where the text does not fit.
pub uninterp spec fn naive_datetime_seconds(text: Seq<char>, format: Seq<char>) -> Option<i64>;

/// The seconds since the epoch of an RFC 3339 text; `None` where the text is
/// not of that form.
pub uninterp spec fn rfc3339_seconds(text: Seq<char>) -> Option<i64>;

/// Compiles `pattern` with `regex::Regex::new` and asks `Regex::is_match`
/// whether it matches somewhere in `text`. Trusted: the answer depends on
/// the two texts alone, and is `None` exactly where the pattern is refused.
#[verifier::external_body]
fn pattern_matches(pattern: &str, text: &str) -> (r: Option<bool>)
    ensures
        r == regex_match(pattern@, text@),
{
    match Regex::new(pattern) {
        Ok(compiled) => Some(compiled.is_match(text)),
        Err(_) => None,
    }
}

/// Reads a date and time with `chrono::NaiveDateTime::parse_from_str` and
/// takes its seconds since the epoch, counted as UTC, with
/// `NaiveDateTime::and_utc` and `DateTime::timestamp`. Trusted: the result
/// depends on the two texts alone, and is `None` exactly where the parse
/// fails.
#[verifier::external_body]
fn parse_naive_datetime(text: &str, format: &str) -> (r: Option<i64>)
    ensures
        r == naive_datetime_seconds(text@, format@),
{
    match NaiveDateTime::parse_from_str(text, format) {
        Ok(parsed) => Some(parsed.and_utc().timestamp()),
        Err(_) => None,
    }
}

/// Reads a date and time with `chrono::DateTime::parse_from_rfc3339` and
/// takes its seconds since the epoch with `DateTime::timestamp`. Trusted:
/// the result depends on the text alone, and is `None` exactly where the
/// parse fails.
#[verifier::external_body]
fn parse_rfc3339(text: &str) -> (r: Option<i64>)
    ensures
        r == rfc3339_seconds(text@),
{
    match DateTime::parse_from_rfc3339(text) {
        Ok(parsed) => Some(parsed.timestamp()),
        Err(_) => None,
    }
}

/// A prefix of a text never writes a larger number than the text.
proof fn lemma_prefix_number(s: Seq<char>, k: int)
    requires
        0 <= k <= s.len(),
    ensures
        number_spec(s.take(k)) <= number_spec(s),
    decreases s.len(),
{
    if k == s.len() {
        assert(s.take(k) =~= s);
    } else {
        lemma_prefix_number(s.drop_last(), k);
        assert(s.drop_last().take(k) =~= s.take(k));
    }
}

/// Reads a number from a text of digits. Returns `None` for an empty text,
/// for one that holds anything but `0` to `9`, and for a number beyond
/// `i64`.
pub fn parse_decimal(text: &str) -> (r: Option<i64>)
    ensures
        r == parse_decimal_spec(text@),
{
    let n: usize = text.unicode_len();
    if n == 0 {
        return None;
    }
    let mut value: i64 = 0;
    let mut i: usize = 0;
    while i < n
        invariant
            n == text@.len(),
            i <= n,
            0 <= value,
            value == number_spec(text@.take(i as int)),
            forall|k: int| 0 <= k < i ==> is_digit(#[trigger] text@[k]),
        decreases n - i,
    {
        let c = text.get_char(i);
        let code: u32 = c as u32;
        if code < 48 || code > 57 {
            assert(!is_digit(text@[i as int]));
            return None;
        }
        let d: i64 = (code - 48) as i64;
        proof {
            assert(text@.take(i + 1).drop_last() =~= text@.take(i as int));
            assert(text@.take(i + 1).last() == c);
            assert(number_spec(text@.take(i + 1)) == value * 10 + d);
        }
        if value > (i64::MAX - d) / 10 {
            proof {
                lemma_prefix_number(text@, i + 1);
            }
            return None;
        }
        value = value * 10 + d;
        i = i + 1;
    }
    assert(text@.take(n as int) =~= text@);
    Some(value)
}

/// The digits that write a number are digits, and read back as the number.
pub proof fn lemma_digits_read_back(n: nat)
    ensures
        digits(n).len() > 0,
        forall|i: int| 0 <= i < digits(n).len() ==> is_digit(#[trigger] digits(n)[i]),
        number_spec(digits(n)) == n,
    decreases n,
{
    let last = digit_char(n % 10);
    assert(is_digit(last) && digit_value(last) == n % 10);
    assert(digits(n).last() == last);
    if n >= 10 {
        lemma_digits_read_back(n / 10);
        assert(digits(n).drop_last() =~= digits(n / 10));
    } else {
        assert(digits(n).drop_last() =~= Seq::<char>::empty());
        assert(number_spec(Seq::<char>::empty()) == 0);
    }
    assert(number_spec(digits(n)) == number_spec(digits(n).drop_last()) * 10 + digit_value(last));
}

/// Reading is the inverse of writing: the decimal rendering of a number
/// that is not negative and fits in `i64` is read back as that number.
pub proof fn lemma_parse_inverts_decimal(n: int)
    requires
        0 <= n <= i64::MAX,
    ensures
        parse_decimal_spec(decimal(n)) == Some(n as i64),
{
    lemma_digits_read_back(n as nat);
}

/// The point in time that a text names, in seconds since the epoch. A text
/// of digits is the number it writes. A text that holds `UTC` is read as
/// `YYYY-MM-DD HH:MM:SS UTC`. Any other text is read as RFC 3339 and, where
/// that fails, as `YYYY-MM-DD HH:MM:SS`. `None` where the reading that
/// applies fails.
pub open spec fn parse_timestamp_spec(text: Seq<char>) -> Option<i64> {
    if regex_match("^\\d*$"@, text) == Some(true) {
        parse_decimal_spec(text)
    } else if regex_match("UTC"@, text) == Some(true) {
        naive_datetime_seconds(text, "%Y-%m-%d %H:%M:%S UTC"@)
    } else {
        match rfc3339_seconds(text) {
            Some(seconds) => Some(seconds),
            None => naive_datetime_seconds(text, "%Y-%m-%d %H:%M:%S"@),
        }
    }
}

/// Reads a point in time from a text, in seconds since the epoch, or
/// returns `None` where the text names none.
pub fn parse_timestamp(timestamp: &str) -> (r: Option<i64>)
    ensures
        r == parse_timestamp_spec(timestamp@),
{
    let digits_only = pattern_matches("^\\d*$", timestamp);
    if digits_only == Some(true) {
        return parse_decimal(timestamp);
    }
    let names_utc = pattern_matches("UTC", timestamp);
    if names_utc == Some(true) {
        return parse_naive_datetime(timestamp, "%Y-%m-%d %H:%M:%S UTC");
    }
    match parse_rfc3339(timestamp) {
        Some(seconds) => Some(seconds),
        None => parse_naive_datetime(timestamp, "%Y-%m-%d %H:%M:%S"),
    }
}

} // verus!
