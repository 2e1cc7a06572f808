//! Source timestamps: the fixed `YYYY-MM-DD HH:MM:SS` text format, calendar
//! validity, and chronological comparison.
//!
//! Timestamps are civil UTC datetimes. For two valid datetimes, comparing the
//! fields lexicographically (year first) is comparing the absolute instants
//! they name, so no epoch conversion is needed anywhere in the crate; the text
//! itself is what the dashboard displays.

use vstd::prelude::*;

verus! {

/// A civil UTC datetime, field by field.
#[derive(Clone, Copy, PartialEq, Eq, Structural)]
pub struct DateTime {
    pub year: u32,
    pub month: u32,
    pub day: u32,
    pub hour: u32,
    pub minute: u32,
    pub second: u32,
}

/// A decimal digit character.
pub open spec fn is_digit(c: char) -> bool {
    48 <= c as u32 <= 57
}

/// The numeric value of a decimal digit character.
pub open spec fn digit_val(c: char) -> int {
    c as u32 - 48
}

/// Gregorian leap years.
pub open spec fn is_leap_year(year: int) -> bool {
    year % 4 == 0 && (year % 100 != 0 || year % 400 == 0)
}

/// The number of days in a month of the Gregorian calendar.
pub open spec fn days_in_month(year: int, month: int) -> int {
    if month == 2 {
        if is_leap_year(year) {
            29
        } else {
            28
        }
    } else if month == 4 || month == 6 || month == 9 || month == 11 {
        30
    } else {
        31
    }
}

/// A datetime that names a real instant: a day the calendar has and a time of
/// day. The year is bounded by the four digits the text format carries.
pub open spec fn dt_valid(dt: DateTime) -> bool {
    &&& dt.year <= 9999
    &&& 1 <= dt.month <= 12
    &&& 1 <= dt.day <= days_in_month(dt.year as int, dt.month as int)
    &&& dt.hour < 24
    &&& dt.minute < 60
    &&& dt.second < 60
}

/// The shape of the text format: exactly `dddd-dd-dd dd:dd:dd`.
pub open spec fn dt_text_ok(s: Seq<char>) -> bool {
    &&& s.len() == 19
    &&& is_digit(s[0]) && is_digit(s[1]) && is_digit(s[2]) && is_digit(s[3])
    &&& s[4] == '-'
    &&& is_digit(s[5]) && is_digit(s[6])
    &&& s[7] == '-'
    &&& is_digit(s[8]) && is_digit(s[9])
    &&& s[10] == ' '
    &&& is_digit(s[11]) && is_digit(s[12])
    &&& s[13] == ':'
    &&& is_digit(s[14]) && is_digit(s[15])
    &&& s[16] == ':'
    &&& is_digit(s[17]) && is_digit(s[18])
}

/// The value of the two-digit field at position `i`.
pub open spec fn two_digit_val(s: Seq<char>, i: int) -> int {
    digit_val(s[i]) * 10 + digit_val(s[i + 1])
}

/// The datetime a well-shaped text names, field by field.
pub open spec fn dt_of_text(s: Seq<char>) -> DateTime {
    DateTime {
        year: (digit_val(s[0]) * 1000 + digit_val(s[1]) * 100 + two_digit_val(s, 2)) as u32,
        month: two_digit_val(s, 5) as u32,
        day: two_digit_val(s, 8) as u32,
        hour: two_digit_val(s, 11) as u32,
        minute: two_digit_val(s, 14) as u32,
        second: two_digit_val(s, 17) as u32,
    }
}

/// What parsing a timestamp text yields: the datetime it names, if the text
/// has the right shape and names a real instant; nothing otherwise.
pub open spec fn spec_parse_datetime(s: Seq<char>) -> Option<DateTime> {
    if dt_text_ok(s) && dt_valid(dt_of_text(s)) {
        Some(dt_of_text(s))
    } else {
        None
    }
}

/// Chronological order of two valid civil UTC datetimes: `a` is no later than
/// `b`. Lexicographic over the fields, year first.
pub open spec fn spec_dt_le(a: DateTime, b: DateTime) -> bool {
    if a.year != b.year {
        a.year < b.year
    } else if a.month != b.month {
        a.month < b.month
    } else if a.day != b.day {
        a.day < b.day
    } else if a.hour != b.hour {
        a.hour < b.hour
    } else if a.minute != b.minute {
        a.minute < b.minute
    } else {
        a.second <= b.second
    }
}

/// The days of a year: one more in a leap year.
pub open spec fn days_in_year(year: int) -> int {
    if is_leap_year(year) {
        366
    } else {
        365
    }
}

/// Days in all years before `year`, counted from year 0.
pub open spec fn days_before_year(year: int) -> int
    decreases year,
{
    if year <= 0 {
        0
    } else {
        days_before_year(year - 1) + days_in_year(year - 1)
    }
}

/// Days in the months of `year` before `month`.
pub open spec fn days_before_month(year: int, month: int) -> int
    decreases month,
{
    if month <= 1 {
        0
    } else {
        days_before_month(year, month - 1) + days_in_month(year, month - 1)
    }
}

/// The day a valid datetime falls on, counted from the first day of year 0.
pub open spec fn spec_days(dt: DateTime) -> int {
    days_before_year(dt.year as int) + days_before_month(dt.year as int, dt.month as int) + dt.day
        - 1
}

/// The absolute UTC instant a valid datetime names, in seconds from the start
/// of year 0.
pub open spec fn epoch_seconds(dt: DateTime) -> int {
    (spec_days(dt) * 24 + dt.hour) * 3600 + dt.minute * 60 + dt.second
}

/// Days-before-month counts grow with the month.
proof fn lemma_dbm_mono(year: int, m1: int, m2: int)
    requires
        1 <= m1 <= m2 <= 13,
    ensures
        days_before_month(year, m1) <= days_before_month(year, m2),
    decreases m2 - m1,
{
    if m1 < m2 {
        lemma_dbm_mono(year, m1, m2 - 1);
    }
}

/// The months of a year add up to its day count.
proof fn lemma_dbm_whole_year(year: int)
    ensures
        days_before_month(year, 13) == days_in_year(year),
{
    reveal_with_fuel(days_before_month, 14);
}

/// A valid date falls before its year's last day is over.
proof fn lemma_day_position_bound(dt: DateTime)
    requires
        dt_valid(dt),
    ensures
        0 <= days_before_month(dt.year as int, dt.month as int) + dt.day - 1 < days_in_year(
            dt.year as int,
        ),
{
    let y = dt.year as int;
    let m = dt.month as int;
    assert(days_before_month(y, m + 1) == days_before_month(y, m) + days_in_month(y, m));
    lemma_dbm_mono(y, 1, m);
    lemma_dbm_mono(y, m + 1, 13);
    lemma_dbm_whole_year(y);
}

/// An earlier year's days, plus that whole year, fit before a later year.
proof fn lemma_dby_step(y1: int, y2: int)
    requires
        0 <= y1 < y2,
    ensures
        days_before_year(y1) + days_in_year(y1) <= days_before_year(y2),
    decreases y2,
{
    if y1 + 1 < y2 {
        lemma_dby_step(y1, y2 - 1);
    }
}

/// Lexicographically earlier valid dates fall on strictly earlier days.
proof fn lemma_days_lt(a: DateTime, b: DateTime)
    requires
        dt_valid(a),
        dt_valid(b),
        (a.year, a.month, a.day) != (b.year, b.month, b.day),
        spec_dt_le(a, b),
    ensures
        spec_days(a) < spec_days(b),
{
    let ya = a.year as int;
    let yb = b.year as int;
    if a.year < b.year {
        lemma_day_position_bound(a);
        lemma_dby_step(ya, yb);
        lemma_day_position_bound(b);
    } else if a.month < b.month {
        let m = a.month as int;
        assert(days_before_month(ya, m + 1) == days_before_month(ya, m) + days_in_month(ya, m));
        lemma_dbm_mono(ya, m + 1, b.month as int);
    }
}

/// A lexicographically strictly earlier valid datetime names a strictly
/// earlier instant.
proof fn lemma_dt_lt_epoch(a: DateTime, b: DateTime)
    requires
        dt_valid(a),
        dt_valid(b),
        spec_dt_le(a, b),
        a != b,
    ensures
        epoch_seconds(a) < epoch_seconds(b),
{
    if (a.year, a.month, a.day) == (b.year, b.month, b.day) {
        assert(spec_days(a) == spec_days(b));
    } else {
        lemma_days_lt(a, b);
    }
}

/// Comparing two valid civil UTC datetimes field by field is comparing the
/// absolute instants they name: the crate's order [`spec_dt_le`] agrees with
/// the order of [`epoch_seconds`], so no run-time epoch conversion is needed.
pub proof fn law_dt_le_matches_instants(a: DateTime, b: DateTime)
    requires
        dt_valid(a),
        dt_valid(b),
    ensures
        spec_dt_le(a, b) <==> epoch_seconds(a) <= epoch_seconds(b),
{
    if a == b {
    } else if spec_dt_le(a, b) {
        lemma_dt_lt_epoch(a, b);
    } else {
        lemma_dt_lt_epoch(b, a);
    }
}

/// Reads the digit at position `i`, or reports that there is none there.
fn digit_at(s: &str, i: usize) -> (r: Option<u32>)
    requires
        i < s@.len(),
    ensures
        match r {
            Some(d) => is_digit(s@[i as int]) && d == digit_val(s@[i as int]),
            None => !is_digit(s@[i as int]),
        },
{
    let c = s.get_char(i);
    let cu = c as u32;
    if 48 <= cu && cu <= 57 {
        Some(cu - 48)
    } else {
        None
    }
}

/// Reads the two-digit field at position `i`.
fn two_digits_at(s: &str, i: usize) -> (r: Option<u32>)
    requires
        i < usize::MAX,
        i + 1 < s@.len(),
    ensures
        match r {
            Some(v) => is_digit(s@[i as int]) && is_digit(s@[i + 1]) && v == two_digit_val(
                s@,
                i as int,
            ),
            None => !(is_digit(s@[i as int]) && is_digit(s@[i + 1])),
        },
{
    match (digit_at(s, i), digit_at(s, i + 1)) {
        (Some(hi), Some(lo)) => Some(hi * 10 + lo),
        _ => None,
    }
}

/// Parses a `YYYY-MM-DD HH:MM:SS` timestamp. Returns the datetime exactly when
/// the text has that shape and names a real calendar instant.
pub fn parse_datetime(s: &str) -> (r: Option<DateTime>)
    ensures
        r == spec_parse_datetime(s@),
{
    if s.unicode_len() != 19 {
        return None;
    }
    if s.get_char(4) != '-' || s.get_char(7) != '-' || s.get_char(10) != ' ' || s.get_char(13)
        != ':' || s.get_char(16) != ':' {
        return None;
    }
    let (y_hi, y_lo) = match (two_digits_at(s, 0), two_digits_at(s, 2)) {
        (Some(a), Some(b)) => (a, b),
        _ => { return None; },
    };
    let month = match two_digits_at(s, 5) {
        Some(v) => v,
        None => { return None; },
    };
    let day = match two_digits_at(s, 8) {
        Some(v) => v,
        None => { return None; },
    };
    let hour = match two_digits_at(s, 11) {
        Some(v) => v,
        None => { return None; },
    };
    let minute = match two_digits_at(s, 14) {
        Some(v) => v,
        None => { return None; },
    };
    let second = match two_digits_at(s, 17) {
        Some(v) => v,
        None => { return None; },
    };
    let dt = DateTime { year: y_hi * 100 + y_lo, month, day, hour, minute, second };
    if month < 1 || month > 12 {
        return None;
    }
    let month_days: u32 = if month == 2 {
        let leap = dt.year % 4 == 0 && (dt.year % 100 != 0 || dt.year % 400 == 0);
        if leap {
            29
        } else {
            28
        }
    } else if month == 4 || month == 6 || month == 9 || month == 11 {
        30
    } else {
        31
    };
    if day < 1 || day > month_days {
        return None;
    }
    if hour >= 24 || minute >= 60 || second >= 60 {
        return None;
    }
    Some(dt)
}

/// Compares two datetimes chronologically, by [`spec_dt_le`].
pub fn dt_le(a: &DateTime, b: &DateTime) -> (r: bool)
    ensures
        r == spec_dt_le(*a, *b),
{
    if a.year != b.year {
        a.year < b.year
    } else if a.month != b.month {
        a.month < b.month
    } else if a.day != b.day {
        a.day < b.day
    } else if a.hour != b.hour {
        a.hour < b.hour
    } else if a.minute != b.minute {
        a.minute < b.minute
    } else {
        a.second <= b.second
    }
}

} // verus!
