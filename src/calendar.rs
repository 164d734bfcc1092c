//! Calendar dates, instants and durations as plain values, and the outside calls that
//! read, write and observe them.
use crate::text::{char_in_class, is_white_space, CharClass};
use chrono::Datelike;
use vstd::prelude::*;

verus! {

/// The day number, counted from 0001-01-01 as day 1, that `chrono` reads from an ISO date.
pub uninterp spec fn date_days_of(s: Seq<char>) -> Option<i32>;

/// The ISO text (`YYYY-MM-DD`) that `chrono` writes for a day number, where it has one.
pub uninterp spec fn date_text_of(days: i32) -> Option<Seq<char>>;

/// The Unix seconds and sub-second nanoseconds that `chrono` reads from an ISO date-time.
pub uninterp spec fn datetime_of(s: Seq<char>) -> Option<(i64, u32)>;

/// The text (`YYYY-MM-DDTHH:MM:SS`) that `chrono` writes for an instant, where it has one.
pub uninterp spec fn datetime_text_of(secs: i64, nanos: u32) -> Option<Seq<char>>;

/// The seconds and sub-second nanoseconds that `humantime` reads from a duration text.
pub uninterp spec fn duration_of(s: Seq<char>) -> Option<(u64, u32)>;

/// Relies on `<chrono::NaiveDate as FromStr>::from_str` and `Datelike::num_days_from_ce`:
/// reads a `YYYY-MM-DD` date as its day number.
#[verifier::external_body]
pub(crate) fn parse_date_days(s: &str) -> (r: Option<i32>)
    ensures
        r == date_days_of(s@),
{
    match s.parse::<chrono::NaiveDate>() {
        Ok(d) => Some(d.num_days_from_ce()),
        Err(_) => None,
    }
}

/// Relies on `chrono::NaiveDate::from_num_days_from_ce_opt` and `format("%Y-%m-%d")`:
/// writes a day number as an ISO date, or nothing outside chrono's range.
#[verifier::external_body]
pub(crate) fn format_date_days(days: i32) -> (r: Option<String>)
    ensures
        match r {
            Some(t) => date_text_of(days) == Some(t@),
            None => date_text_of(days) is None,
        },
{
    match chrono::NaiveDate::from_num_days_from_ce_opt(days) {
        Some(d) => Some(d.format("%Y-%m-%d").to_string()),
        None => None,
    }
}

/// Relies on `chrono::Utc::now` and `DateTime::date_naive`: today's UTC day number.
#[verifier::external_body]
pub(crate) fn today_days() -> (r: i32) {
    chrono::Utc::now().date_naive().num_days_from_ce()
}

/// Relies on `<chrono::NaiveDateTime as FromStr>::from_str`, read as UTC: the Unix seconds
/// and the sub-second nanoseconds of an ISO date-time.
#[verifier::external_body]
pub(crate) fn parse_datetime(s: &str) -> (r: Option<(i64, u32)>)
    ensures
        r == datetime_of(s@),
{
    match s.parse::<chrono::NaiveDateTime>() {
        Ok(t) => Some((t.and_utc().timestamp(), t.and_utc().timestamp_subsec_nanos())),
        Err(_) => None,
    }
}

/// Relies on `chrono::DateTime::from_timestamp` and `format("%Y-%m-%dT%X")`: writes an
/// instant as date and time of day, or nothing outside chrono's range.
#[verifier::external_body]
pub(crate) fn format_datetime(secs: i64, nanos: u32) -> (r: Option<String>)
    ensures
        match r {
            Some(t) => datetime_text_of(secs, nanos) == Some(t@),
            None => datetime_text_of(secs, nanos) is None,
        },
{
    match chrono::DateTime::from_timestamp(secs, nanos) {
        Some(t) => Some(t.naive_utc().format("%Y-%m-%dT%X").to_string()),
        None => None,
    }
}

/// Most significant digits that a duration text may hold, over all its numbers. A digit is
/// significant unless it is a zero before the first nonzero digit of its number; blanks do
/// not end a number, any other character does. The numbers then sum to less than 10^11, so
/// even in years (31,557,600 s each), and with each nonzero fraction adding less than one
/// unit, the total stays far below `u64::MAX` seconds, and `humantime` cannot overflow the
/// seconds of the `Duration` it builds.
pub const MAX_DURATION_DIGITS: usize = 11;

pub open spec fn is_ascii_digit(c: char) -> bool {
    '0' <= c <= '9'
}

/// The significant digits of `s` from index `i` on, where `seen` tells whether the number
/// that index `i` continues already has a nonzero digit.
pub open spec fn significant_from(s: Seq<char>, i: int, seen: bool) -> nat
    decreases s.len() - i,
{
    if i < 0 || i >= s.len() {
        0
    } else if is_ascii_digit(s[i]) {
        let counts: nat = if s[i] != '0' || seen {
            1
        } else {
            0
        };
        counts + significant_from(s, i + 1, seen || s[i] != '0')
    } else if is_white_space(s[i]) {
        significant_from(s, i + 1, seen)
    } else {
        significant_from(s, i + 1, false)
    }
}

/// The number of significant digits in `s`.
pub open spec fn significant_digits(s: Seq<char>) -> nat {
    significant_from(s, 0, false)
}

/// Counts the significant digits of `s`.
pub fn count_significant_digits(s: &str) -> (r: usize)
    ensures
        r == significant_digits(s@),
{
    let n = s.unicode_len();
    let mut count: usize = 0;
    let mut seen = false;
    let mut i: usize = 0;
    while i < n
        invariant
            i <= n,
            n == s@.len(),
            count <= i,
            count + significant_from(s@, i as int, seen) == significant_digits(s@),
        decreases n - i,
    {
        let c = s.get_char(i);
        if '0' <= c && c <= '9' {
            if c != '0' || seen {
                count = count + 1;
            }
            seen = seen || c != '0';
        } else if !char_in_class(c, CharClass::Whitespace) {
            seen = false;
        }
        i = i + 1;
    }
    count
}

/// Relies on `humantime::parse_duration`: reads a duration such as `2h30m` as whole
/// seconds and the nanoseconds beyond them, which `std::time::Duration` keeps below one
/// second. It panics when the seconds overflow while it builds the `Duration`, which the
/// bound on significant digits rules out.
#[verifier::external_body]
pub(crate) fn parse_duration(s: &str) -> (r: Option<(u64, u32)>)
    requires
        significant_digits(s@) <= MAX_DURATION_DIGITS,
    ensures
        r == duration_of(s@),
        r matches Some(d) ==> d.1 < 1_000_000_000,
{
    match humantime::parse_duration(s) {
        Ok(d) => Some((d.as_secs(), d.subsec_nanos())),
        Err(_) => None,
    }
}

/// Whether every character of `s` is an ASCII digit.
pub open spec fn all_digits(s: Seq<char>) -> bool {
    forall|i: int| 0 <= i < s.len() ==> '0' <= #[trigger] s[i] <= '9'
}

/// The value of a run of decimal digits.
pub open spec fn digits_value(s: Seq<char>) -> int
    decreases s.len(),
{
    if s.len() == 0 {
        0
    } else {
        digits_value(s.drop_last()) * 10 + (s.last() as int - '0' as int)
    }
}

/// The integer that `s` writes: an optional `+` or `-`, then one or more decimal digits.
pub open spec fn integer_of(s: Seq<char>) -> Option<int> {
    let signed = s.len() > 0 && (s[0] == '-' || s[0] == '+');
    let body = if signed {
        s.drop_first()
    } else {
        s
    };
    if body.len() > 0 && all_digits(body) {
        if s[0] == '-' {
            Some(-digits_value(body))
        } else {
            Some(digits_value(body))
        }
    } else {
        None
    }
}

/// The `i64` that `s` writes, if it writes one in range.
pub open spec fn i64_of(s: Seq<char>) -> Option<i64> {
    match integer_of(s) {
        Some(v) => if i64::MIN <= v <= i64::MAX {
            Some(v as i64)
        } else {
            None
        },
        None => None,
    }
}

proof fn lemma_digits_prefix(s: Seq<char>, j: int)
    requires
        all_digits(s),
        0 <= j <= s.len(),
    ensures
        0 <= digits_value(s.take(j)) <= digits_value(s),
    decreases s.len(),
{
    if s.len() > 0 {
        let t = s.drop_last();
        assert(all_digits(t)) by {
            assert forall|i: int| 0 <= i < t.len() implies '0' <= #[trigger] t[i] <= '9' by {
                assert(t[i] == s[i]);
            }
        }
        assert('0' <= s[s.len() - 1] <= '9');
        if j == s.len() {
            assert(s.take(j) =~= s);
            lemma_digits_prefix(t, t.len() as int);
            assert(t.take(t.len() as int) =~= t);
        } else {
            assert(t.take(j) =~= s.take(j));
            lemma_digits_prefix(t, j);
        }
    } else {
        assert(s.take(j) =~= s);
    }
}

/// Reads an `i64` the way `<i64 as FromStr>::from_str` does: an optional sign and decimal
/// digits, nothing else, and a value that fits.
pub fn parse_i64(s: &str) -> (r: Option<i64>)
    ensures
        r == i64_of(s@),
{
    let n = s.unicode_len();
    if n == 0 {
        return None;
    }
    let c0 = s.get_char(0);
    let start: usize = if c0 == '-' || c0 == '+' {
        1
    } else {
        0
    };
    let ghost body = if start == 1 {
        s@.drop_first()
    } else {
        s@
    };
    assert(body =~= s@.subrange(start as int, n as int));
    assert(body == (if s@.len() > 0 && (s@[0] == '-' || s@[0] == '+') {
        s@.drop_first()
    } else {
        s@
    }));
    if start == n {
        return None;
    }
    let mut acc: u128 = 0;
    let mut i: usize = start;
    assert(s@.subrange(start as int, start as int) =~= Seq::<char>::empty());
    while i < n
        invariant
            start <= i <= n,
            n == s@.len(),
            body == s@.subrange(start as int, n as int),
            body == (if s@.len() > 0 && (s@[0] == '-' || s@[0] == '+') {
                s@.drop_first()
            } else {
                s@
            }),
            c0 == s@[0],
            all_digits(s@.subrange(start as int, i as int)),
            acc == digits_value(s@.subrange(start as int, i as int)),
            acc <= 9223372036854775808,
        decreases n - i,
    {
        let c = s.get_char(i);
        if !('0' <= c && c <= '9') {
            assert(!all_digits(body)) by {
                assert(body[i - start] == c);
            }
            assert(integer_of(s@) is None);
            return None;
        }
        let ghost prev = s@.subrange(start as int, i as int);
        let ghost next = s@.subrange(start as int, i + 1);
        assert(next.drop_last() =~= prev);
        assert(all_digits(next)) by {
            assert forall|k: int| 0 <= k < next.len() implies '0' <= #[trigger] next[k] <= '9' by {
                if k < prev.len() {
                    assert(next[k] == prev[k]);
                }
            }
        }
        acc = acc * 10 + (c as u32 - '0' as u32) as u128;
        if acc > 9223372036854775808 {
            proof {
                if all_digits(body) {
                    assert(body.take(i + 1 - start) =~= next);
                    lemma_digits_prefix(body, i + 1 - start);
                    assert(digits_value(body) > 9223372036854775808);
                }
                assert(i64_of(s@) is None);
            }
            return None;
        }
        i = i + 1;
    }
    assert(s@.subrange(start as int, n as int) =~= body);
    if c0 == '-' {
        let v: i128 = -(acc as i128);
        Some(v as i64)
    } else if acc <= 9223372036854775807 {
        Some(acc as i64)
    } else {
        None
    }
}

} // verus!
