//! Verified calendar arithmetic and the `YYYY-MM` month marker: the
//! month-granularity date format the providers' APIs filter and report by.

use crate::models::{TimePeriod, UtcDateTime};
use crate::text::{digit_str, spec_digit_char};
use vstd::prelude::*;
use vstd::string::StrSliceExecFns;
use vstd::string::StringExecFns;

verus! {

/// Gregorian leap years: every fourth year, except century years not
/// divisible by 400.
pub open spec fn spec_is_leap_year(y: int) -> bool {
    y % 4 == 0 && (y % 100 != 0 || y % 400 == 0)
}

/// The number of days in a calendar month.
pub open spec fn spec_days_in_month(y: int, m: int) -> int {
    if m == 2 {
        if spec_is_leap_year(y) {
            29
        } else {
            28
        }
    } else if m == 4 || m == 6 || m == 9 || m == 11 {
        30
    } else {
        31
    }
}

/// The number of days in a calendar month.
pub fn days_in_month(year: u16, month: u8) -> (r: u8)
    requires
        1 <= month <= 12,
    ensures
        r == spec_days_in_month(year as int, month as int),
{
    if month == 2 {
        if year % 4 == 0 && (year % 100 != 0 || year % 400 == 0) {
            29
        } else {
            28
        }
    } else if month == 4 || month == 6 || month == 9 || month == 11 {
        30
    } else {
        31
    }
}

/// The four digits of a year below ten thousand.
pub open spec fn spec_year4(y: int) -> Seq<char> {
    seq![
        spec_digit_char(y / 1000 % 10),
        spec_digit_char(y / 100 % 10),
        spec_digit_char(y / 10 % 10),
        spec_digit_char(y % 10),
    ]
}

/// The two digits of a month number.
pub open spec fn spec_month2(m: int) -> Seq<char> {
    seq![spec_digit_char(m / 10 % 10), spec_digit_char(m % 10)]
}

/// The month marker `YYYY-MM`: zero-padded year, a dash, zero-padded month.
pub open spec fn spec_year_month(y: int, m: int) -> Seq<char> {
    spec_year4(y) + seq!['-'] + spec_month2(m)
}

/// Append the `YYYY-MM` marker of an instant's year and month to `out`.
pub fn push_year_month(out: &mut String, t: &UtcDateTime)
    ensures
        final(out)@ == old(out)@ + spec_year_month(t.year as int, t.month as int),
{
    let y = t.year as u64;
    out.append(digit_str(y / 1000 % 10));
    out.append(digit_str(y / 100 % 10));
    out.append(digit_str(y / 10 % 10));
    out.append(digit_str(y % 10));
    out.append("-");
    let m = t.month as u64;
    out.append(digit_str(m / 10 % 10));
    out.append(digit_str(m % 10));
    proof {
        reveal_strlit("-");
        assert(old(out)@ + spec_year_month(t.year as int, t.month as int) =~= final(out)@);
    }
}

/// Whether a character is a decimal digit.
pub open spec fn spec_is_digit(c: char) -> bool {
    48 <= c as u32 <= 57
}

/// The value of a decimal digit character.
pub open spec fn spec_digit_val(c: char) -> int {
    c as u32 - 48
}

/// Parse a `YYYY-MM` marker: exactly four digits, a dash, and two digits
/// naming a real month.
pub open spec fn spec_parse_year_month(s: Seq<char>) -> Option<(int, int)> {
    if s.len() == 7 && spec_is_digit(s[0]) && spec_is_digit(s[1]) && spec_is_digit(s[2])
        && spec_is_digit(s[3]) && s[4] == '-' && spec_is_digit(s[5]) && spec_is_digit(s[6]) {
        let y = spec_digit_val(s[0]) * 1000 + spec_digit_val(s[1]) * 100 + spec_digit_val(s[2])
            * 10 + spec_digit_val(s[3]);
        let m = spec_digit_val(s[5]) * 10 + spec_digit_val(s[6]);
        if 1 <= m <= 12 {
            Some((y, m))
        } else {
            None
        }
    } else {
        None
    }
}

/// The calendar-month span of a year and month: from the first day at
/// midnight to the last day (leap years accounted for) at 23:59:59.
pub open spec fn spec_month_period(y: u16, m: u8) -> TimePeriod {
    TimePeriod {
        start: UtcDateTime { year: y, month: m, day: 1, hour: 0, minute: 0, second: 0 },
        end: UtcDateTime {
            year: y,
            month: m,
            day: spec_days_in_month(y as int, m as int) as u8,
            hour: 23,
            minute: 59,
            second: 59,
        },
    }
}

/// What parsing a month marker yields: the calendar-month span of the year
/// and month it names, or nothing when the marker is malformed.
pub open spec fn spec_parse_month_marker(s: Seq<char>) -> Option<TimePeriod> {
    match spec_parse_year_month(s) {
        Some((y, m)) => Some(spec_month_period(y as u16, m as u8)),
        None => None,
    }
}

/// Parse a `YYYY-MM` month marker into the span of that calendar month.
pub fn month_marker_period(s: &str) -> (r: Option<TimePeriod>)
    ensures
        r == spec_parse_month_marker(s@),
        r matches Some(p) ==> p.start.is_valid() && p.end.is_valid(),
{
    let n = s.unicode_len();
    if n != 7 {
        return None;
    }
    let c0 = s.get_char(0) as u32;
    let c1 = s.get_char(1) as u32;
    let c2 = s.get_char(2) as u32;
    let c3 = s.get_char(3) as u32;
    let dash = s.get_char(4);
    let c5 = s.get_char(5) as u32;
    let c6 = s.get_char(6) as u32;
    if c0 < 48 || c0 > 57 || c1 < 48 || c1 > 57 || c2 < 48 || c2 > 57 || c3 < 48 || c3 > 57 {
        return None;
    }
    if dash != '-' {
        return None;
    }
    if c5 < 48 || c5 > 57 || c6 < 48 || c6 > 57 {
        return None;
    }
    let y: u16 = ((c0 - 48) * 1000 + (c1 - 48) * 100 + (c2 - 48) * 10 + (c3 - 48)) as u16;
    let m: u8 = ((c5 - 48) * 10 + (c6 - 48)) as u8;
    if m < 1 || m > 12 {
        return None;
    }
    let last = days_in_month(y, m);
    Some(
        TimePeriod {
            start: UtcDateTime { year: y, month: m, day: 1, hour: 0, minute: 0, second: 0 },
            end: UtcDateTime { year: y, month: m, day: last, hour: 23, minute: 59, second: 59 },
        },
    )
}

/// A decimal digit character parses back to the value it renders.
pub proof fn lemma_digit_char_val(d: int)
    requires
        0 <= d < 10,
    ensures
        spec_is_digit(spec_digit_char(d)),
        spec_digit_val(spec_digit_char(d)) == d,
{
}

/// Round trip: the `YYYY-MM` marker written for a year and month parses back
/// to exactly the span of that calendar month, with the end day accounting
/// for leap years and the end time 23:59:59.
pub proof fn lemma_month_marker_round_trip(y: u16, m: u8)
    requires
        y <= 9999,
        1 <= m <= 12,
    ensures
        spec_parse_month_marker(spec_year_month(y as int, m as int)) == Some(
            spec_month_period(y, m),
        ),
{
    let s = spec_year_month(y as int, m as int);
    let yi = y as int;
    let mi = m as int;
    assert(s.len() == 7);
    assert(s[0] == spec_digit_char(yi / 1000 % 10));
    assert(s[1] == spec_digit_char(yi / 100 % 10));
    assert(s[2] == spec_digit_char(yi / 10 % 10));
    assert(s[3] == spec_digit_char(yi % 10));
    assert(s[4] == '-');
    assert(s[5] == spec_digit_char(mi / 10 % 10));
    assert(s[6] == spec_digit_char(mi % 10));
    lemma_digit_char_val(yi / 1000 % 10);
    lemma_digit_char_val(yi / 100 % 10);
    lemma_digit_char_val(yi / 10 % 10);
    lemma_digit_char_val(yi % 10);
    lemma_digit_char_val(mi / 10 % 10);
    lemma_digit_char_val(mi % 10);
    assert(yi / 1000 % 10 * 1000 + yi / 100 % 10 * 100 + yi / 10 % 10 * 10 + yi % 10 == yi) by {
        assert(y / 1000 % 10 * 1000 + y / 100 % 10 * 100 + y / 10 % 10 * 10 + y % 10 == y)
            by (bit_vector)
            requires
                y <= 9999,
        ;
    }
    assert(mi / 10 % 10 * 10 + mi % 10 == mi) by {
        assert(m / 10 % 10 * 10 + m % 10 == m) by (bit_vector)
            requires
                m <= 12,
        ;
    }
}

} // verus!
