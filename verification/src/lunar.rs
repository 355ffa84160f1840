//! A rough local lunar-calendar approximation: a hard-coded table of
//! spring-festival offsets and fixed 30-day lunar months, with no
//! leap-month handling. It is deliberately approximate; it is not a
//! correct lunar-calendar conversion.

use vstd::prelude::*;
use crate::digits::{spec_idecimal, i32_decimal};

verus! {

/// A lunar date.
#[derive(Clone, Copy, Debug, PartialEq, Eq, Structural)]
pub struct LunarDate {
    pub year: i32,
    pub month: i32,
    pub day: i32,
    pub is_leap_month: bool,
}

/// The day of the month on which the lunar new year falls, from the
/// hard-coded table; 10 outside the table's years. The table keeps bare
/// day numbers, so a festival in February is approximated by its
/// day-of-month alone, as if it fell in January.
pub open spec fn spec_new_year_offset(year: int) -> int {
    if year == 2020 {
        25
    } else if year == 2021 {
        12
    } else if year == 2022 {
        1
    } else if year == 2023 {
        22
    } else if year == 2024 {
        10
    } else if year == 2025 {
        29
    } else if year == 2026 {
        17
    } else if year == 2027 {
        6
    } else if year == 2028 {
        26
    } else if year == 2029 {
        13
    } else {
        10
    }
}

/// Whether a year is a leap year in the Gregorian calendar.
pub open spec fn spec_is_leap_year(year: int) -> bool {
    (year % 4 == 0 && year % 100 != 0) || year % 400 == 0
}

/// The number of days of a month; 0 for a month number outside 1 to 12.
pub open spec fn spec_days_in_month(year: int, month: int) -> int {
    if month == 1 || month == 3 || month == 5 || month == 7 || month == 8 || month == 10 || month
        == 12 {
        31
    } else if month == 4 || month == 6 || month == 9 || month == 11 {
        30
    } else if month == 2 {
        if spec_is_leap_year(year) {
            29
        } else {
            28
        }
    } else {
        0
    }
}

/// The days of the months `from` (inclusive) up to `to` (exclusive) added up.
pub open spec fn spec_month_span_days(year: int, from: int, to: int) -> int
    decreases to - from,
{
    if from >= to {
        0
    } else {
        spec_days_in_month(year, from) + spec_month_span_days(year, from + 1, to)
    }
}

proof fn lemma_span_extend(year: int, a: int, b: int)
    requires
        a <= b,
    ensures
        spec_month_span_days(year, a, b) + spec_days_in_month(year, b) == spec_month_span_days(
            year,
            a,
            b + 1,
        ),
    decreases b - a,
{
    if a < b {
        lemma_span_extend(year, a + 1, b);
    } else {
        assert(spec_month_span_days(year, a + 1, b + 1) == 0);
    }
}

proof fn lemma_span_bound(year: int, a: int, b: int)
    requires
        a <= b,
    ensures
        0 <= spec_month_span_days(year, a, b) <= 31 * (b - a),
    decreases b - a,
{
    if a < b {
        lemma_span_bound(year, a + 1, b);
    }
}

/// Days elapsed since the lunar new year, under the approximation's own
/// counting: dates before the new-year offset count from the previous
/// year's new year.
pub open spec fn spec_days_since_new_year(year: int, month: int, day: int) -> int {
    let off = spec_new_year_offset(year);
    if month == 1 && day < off {
        (if spec_is_leap_year(year - 1) {
            366int
        } else {
            365int
        }) - spec_new_year_offset(year - 1) + day
    } else if month == 1 {
        day - off
    } else if month == 2 && day < off {
        31 - off + day
    } else {
        spec_month_span_days(year, 2, month) + day - off + 31
    }
}

/// Whether a calendar date still belongs to the previous lunar year.
pub open spec fn spec_in_previous_lunar_year(year: int, month: int, day: int) -> bool {
    month == 1 && day < spec_new_year_offset(year)
}

fn new_year_offset(year: i32) -> (r: i32)
    ensures
        r == spec_new_year_offset(year as int),
        1 <= r <= 29,
{
    if year == 2020 {
        25
    } else if year == 2021 {
        12
    } else if year == 2022 {
        1
    } else if year == 2023 {
        22
    } else if year == 2024 {
        10
    } else if year == 2025 {
        29
    } else if year == 2026 {
        17
    } else if year == 2027 {
        6
    } else if year == 2028 {
        26
    } else if year == 2029 {
        13
    } else {
        10
    }
}

/// Whether a year is a leap year in the Gregorian calendar.
pub fn is_leap_year(year: i32) -> (r: bool)
    ensures
        r == spec_is_leap_year(year as int),
{
    (year % 4 == 0 && year % 100 != 0) || (year % 400 == 0)
}

/// The number of days of a month; 0 for a month number outside 1 to 12.
pub fn days_in_month(year: i32, month: i32) -> (r: i32)
    ensures
        r == spec_days_in_month(year as int, month as int),
        0 <= r <= 31,
{
    match month {
        1 | 3 | 5 | 7 | 8 | 10 | 12 => 31,
        4 | 6 | 9 | 11 => 30,
        2 => if is_leap_year(year) {
            29
        } else {
            28
        },
        _ => 0,
    }
}

/// Converts a calendar date to the approximate lunar date: the lunar year
/// turns at the table's offset, and lunar months are a fixed 30 days.
pub fn solar_to_lunar(year: i32, month: i32, day: i32) -> (r: LunarDate)
    requires
        year > i32::MIN,
        1 <= month <= 12,
        1 <= day <= 31,
    ensures
        r.year == if spec_in_previous_lunar_year(year as int, month as int, day as int) {
            year - 1
        } else {
            year as int
        },
        r.month == spec_days_since_new_year(year as int, month as int, day as int) / 30 + 1,
        r.day == spec_days_since_new_year(year as int, month as int, day as int) % 30 + 1,
        !r.is_leap_month,
{
    let offset = new_year_offset(year);
    let days_since: i32;
    if month == 1 && day < offset {
        let prev_offset = new_year_offset(year - 1);
        let days_in_prev: i32 = if is_leap_year(year - 1) {
            366
        } else {
            365
        };
        days_since = days_in_prev - prev_offset + day;
    } else if month == 1 {
        days_since = day - offset;
    } else if month == 2 && day < offset {
        days_since = 31 - offset + day;
    } else {
        let mut span: i32 = 0;
        let mut m: i32 = 2;
        while m < month
            invariant
                2 <= m <= month,
                month <= 12,
                span == spec_month_span_days(year as int, 2, m as int),
                0 <= span <= 341,
            decreases month - m,
        {
            span = span + days_in_month(year, m);
            proof {
                lemma_span_extend(year as int, 2, m as int);
                lemma_span_bound(year as int, 2, m as int + 1);
            }
            m = m + 1;
        }
        days_since = span + day - offset + 31;
    }
    proof {
        assert(days_since == spec_days_since_new_year(year as int, month as int, day as int));
        assert(0 <= days_since <= 403);
    }
    let days_u: u32 = days_since as u32;
    let lunar_month: i32 = (days_u / 30 + 1) as i32;
    let lunar_day: i32 = (days_u % 30 + 1) as i32;
    let lunar_year: i32 = if month == 1 && day < offset {
        year - 1
    } else {
        year
    };
    LunarDate { year: lunar_year, month: lunar_month, day: lunar_day, is_leap_month: false }
}

/// The displayed lunar-date string: the year, month and day numbers
/// joined by the lunar-calendar markers.
pub open spec fn spec_lunar_date_chars(d: LunarDate) -> Seq<char> {
    "农历"@ + spec_idecimal(d.year as int) + "年"@ + spec_idecimal(d.month as int) + "月"@
        + spec_idecimal(d.day as int) + "日"@
}

/// Formats a lunar date for display.
pub fn format_lunar_date(lunar_date: &LunarDate) -> (r: String)
    ensures
        r@ == spec_lunar_date_chars(*lunar_date),
{
    let r = String::from_str("农历").concat(i32_decimal(lunar_date.year).as_str()).concat(
        "年",
    ).concat(i32_decimal(lunar_date.month).as_str()).concat("月").concat(
        i32_decimal(lunar_date.day).as_str(),
    ).concat("日");
    proof {
        assert(r@ =~= spec_lunar_date_chars(*lunar_date));
    }
    r
}

} // verus!
