//! The clock tick's data: needle angles, the localized time, date and
//! weekday strings, and the snapshot pushed to the UI once per second.

use vstd::prelude::*;
use crate::digits::{
    spec_two_digits,
    spec_four_digits,
    spec_idecimal,
    two_digit_string,
    four_digit_string,
    i32_decimal,
};

verus! {

/// Needle angles are measured in ticks of 1/120 degree, so that every
/// needle position is an exact integer: a full turn of 360 degrees is
/// 43200 ticks, one second moves the second needle 720 ticks.
pub const TICKS_PER_TURN: u32 = 43200;

/// A day of the week.
#[derive(Clone, Copy, Debug, PartialEq, Eq, Structural)]
pub enum Weekday {
    Mon,
    Tue,
    Wed,
    Thu,
    Fri,
    Sat,
    Sun,
}

/// The localized name displayed for each day of the week.
pub open spec fn spec_weekday_name(w: Weekday) -> Seq<char> {
    match w {
        Weekday::Mon => "星期一"@,
        Weekday::Tue => "星期二"@,
        Weekday::Wed => "星期三"@,
        Weekday::Thu => "星期四"@,
        Weekday::Fri => "星期五"@,
        Weekday::Sat => "星期六"@,
        Weekday::Sun => "星期日"@,
    }
}

/// Maps a day of the week to its localized display name; total over the
/// seven-day enumeration.
pub fn weekday_to_chinese(weekday: Weekday) -> (r: &'static str)
    ensures
        r@ == spec_weekday_name(weekday),
{
    match weekday {
        Weekday::Mon => "星期一",
        Weekday::Tue => "星期二",
        Weekday::Wed => "星期三",
        Weekday::Thu => "星期四",
        Weekday::Fri => "星期五",
        Weekday::Sat => "星期六",
        Weekday::Sun => "星期日",
    }
}

/// The set of the seven localized weekday names.
pub open spec fn weekday_name_set() -> Set<Seq<char>> {
    set!["星期一"@, "星期二"@, "星期三"@, "星期四"@, "星期五"@, "星期六"@, "星期日"@]
}

/// The weekday mapping never leaves the fixed set of seven names.
pub proof fn lemma_weekday_name_total(w: Weekday)
    ensures
        weekday_name_set().contains(spec_weekday_name(w)),
{
}

/// Distinct days of the week always display as distinct names.
pub proof fn lemma_weekday_name_injective(w1: Weekday, w2: Weekday)
    requires
        spec_weekday_name(w1) == spec_weekday_name(w2),
    ensures
        w1 == w2,
{
    reveal_strlit("星期一");
    reveal_strlit("星期二");
    reveal_strlit("星期三");
    reveal_strlit("星期四");
    reveal_strlit("星期五");
    reveal_strlit("星期六");
    reveal_strlit("星期日");
    assert("星期一"@[2] == '一');
    assert("星期二"@[2] == '二');
    assert("星期三"@[2] == '三');
    assert("星期四"@[2] == '四');
    assert("星期五"@[2] == '五');
    assert("星期六"@[2] == '六');
    assert("星期日"@[2] == '日');
    if w1 != w2 {
        assert(spec_weekday_name(w1)[2] == spec_weekday_name(w2)[2]);
        assert(false);
    }
}

/// Every name in the fixed set is displayed for some day of the week:
/// together with totality and injectivity, the weekday mapping is a
/// bijection between the seven-day enumeration and the name set.
pub proof fn lemma_weekday_name_surjective(n: Seq<char>)
    requires
        weekday_name_set().contains(n),
    ensures
        exists|w: Weekday| spec_weekday_name(w) == n,
{
    if n == "星期一"@ {
        assert(spec_weekday_name(Weekday::Mon) == n);
    } else if n == "星期二"@ {
        assert(spec_weekday_name(Weekday::Tue) == n);
    } else if n == "星期三"@ {
        assert(spec_weekday_name(Weekday::Wed) == n);
    } else if n == "星期四"@ {
        assert(spec_weekday_name(Weekday::Thu) == n);
    } else if n == "星期五"@ {
        assert(spec_weekday_name(Weekday::Fri) == n);
    } else if n == "星期六"@ {
        assert(spec_weekday_name(Weekday::Sat) == n);
    } else {
        assert(spec_weekday_name(Weekday::Sun) == n);
    }
}

/// Second-needle angle in ticks: 6 degrees, that is 720 ticks, per second.
pub open spec fn spec_second_ticks(s: int) -> int {
    s * 720
}

/// Minute-needle angle in ticks: `(minute + second / 60) * 6` degrees.
pub open spec fn spec_minute_ticks(m: int, s: int) -> int {
    m * 720 + s * 12
}

/// Hour-needle angle in ticks: `((hour % 12) + (minute + second / 60) / 60) * 30`
/// degrees.
pub open spec fn spec_hour_ticks(h: int, m: int, s: int) -> int {
    (h % 12) * 3600 + m * 60 + s
}

/// For every valid time of day, all three needle angles lie in
/// `[0, 360)` degrees, that is in `[0, 43200)` ticks.
pub proof fn lemma_angles_in_range(h: int, m: int, s: int)
    requires
        0 <= h < 24,
        0 <= m < 60,
        0 <= s < 60,
    ensures
        0 <= spec_second_ticks(s) < TICKS_PER_TURN,
        0 <= spec_minute_ticks(m, s) < TICKS_PER_TURN,
        0 <= spec_hour_ticks(h, m, s) < TICKS_PER_TURN,
{
}

/// Second-needle angle of a wall-clock second.
pub fn second_angle_ticks(second: u32) -> (r: u32)
    requires
        second < 60,
    ensures
        r == spec_second_ticks(second as int),
        r < TICKS_PER_TURN,
{
    second * 720
}

/// Minute-needle angle of a wall-clock minute and second.
pub fn minute_angle_ticks(minute: u32, second: u32) -> (r: u32)
    requires
        minute < 60,
        second < 60,
    ensures
        r == spec_minute_ticks(minute as int, second as int),
        r < TICKS_PER_TURN,
{
    minute * 720 + second * 12
}

/// Hour-needle angle of a wall-clock time of day.
pub fn hour_angle_ticks(hour: u32, minute: u32, second: u32) -> (r: u32)
    requires
        hour < 24,
        minute < 60,
        second < 60,
    ensures
        r == spec_hour_ticks(hour as int, minute as int, second as int),
        r < TICKS_PER_TURN,
{
    (hour % 12) * 3600 + minute * 60 + second
}

/// The fields of a local wall-clock reading.
#[derive(Clone, Copy, Debug, PartialEq, Eq, Structural)]
pub struct TimeFields {
    pub year: i32,
    pub month: u32,
    pub day: u32,
    pub hour: u32,
    pub minute: u32,
    pub second: u32,
    pub weekday: Weekday,
}

impl TimeFields {
    /// The ranges a calendar clock reading satisfies. The year is left
    /// unconstrained: the date string renders any year.
    pub open spec fn wf(self) -> bool {
        &&& 1 <= self.month <= 12
        &&& 1 <= self.day <= 31
        &&& self.hour < 24
        &&& self.minute < 60
        &&& self.second < 60
    }
}

/// The year as displayed: zero-padded to four digits for years 0 through
/// 9999, a plain signed decimal outside that range.
pub open spec fn spec_year_chars(y: int) -> Seq<char> {
    if 0 <= y < 10000 {
        spec_four_digits(y)
    } else {
        spec_idecimal(y)
    }
}

/// The displayed time string `HH:MM:SS`, zero-padded.
pub open spec fn spec_time_chars(h: int, m: int, s: int) -> Seq<char> {
    spec_two_digits(h) + ":"@ + spec_two_digits(m) + ":"@ + spec_two_digits(s)
}

/// The displayed localized date string: year, month and day, each
/// zero-padded, joined by the year/month/day markers.
pub open spec fn spec_date_chars(y: int, m: int, d: int) -> Seq<char> {
    spec_year_chars(y) + "年"@ + spec_two_digits(m) + "月"@ + spec_two_digits(d) + "日"@
}

/// Renders the year part of the date string.
pub fn year_string(y: i32) -> (r: String)
    ensures
        r@ == spec_year_chars(y as int),
{
    if 0 <= y && y < 10000 {
        four_digit_string(y as u32)
    } else {
        i32_decimal(y)
    }
}

/// Renders the `HH:MM:SS` time string.
pub fn time_string(hour: u32, minute: u32, second: u32) -> (r: String)
    requires
        hour < 24,
        minute < 60,
        second < 60,
    ensures
        r@ == spec_time_chars(hour as int, minute as int, second as int),
{
    let r = two_digit_string(hour).concat(":").concat(two_digit_string(minute).as_str()).concat(
        ":",
    ).concat(two_digit_string(second).as_str());
    proof {
        assert(r@ =~= spec_time_chars(hour as int, minute as int, second as int));
    }
    r
}

/// Renders the localized date string.
pub fn date_string(year: i32, month: u32, day: u32) -> (r: String)
    requires
        1 <= month <= 12,
        1 <= day <= 31,
    ensures
        r@ == spec_date_chars(year as int, month as int, day as int),
{
    let r = year_string(year).concat("年").concat(two_digit_string(month).as_str()).concat(
        "月",
    ).concat(two_digit_string(day).as_str()).concat("日");
    proof {
        assert(r@ =~= spec_date_chars(year as int, month as int, day as int));
    }
    r
}

/// What the UI shows for one clock tick: the three formatted strings and
/// the three needle angles.
pub struct ClockSnapshot {
    pub time: String,
    pub date: String,
    pub weekday: String,
    pub hour_ticks: u32,
    pub minute_ticks: u32,
    pub second_ticks: u32,
}

impl ClockSnapshot {
    /// The snapshot is exactly what the given wall-clock reading renders to.
    pub open spec fn rendered_from(self, f: TimeFields) -> bool {
        &&& self.time@ == spec_time_chars(f.hour as int, f.minute as int, f.second as int)
        &&& self.date@ == spec_date_chars(f.year as int, f.month as int, f.day as int)
        &&& self.weekday@ == spec_weekday_name(f.weekday)
        &&& self.hour_ticks == spec_hour_ticks(f.hour as int, f.minute as int, f.second as int)
        &&& self.minute_ticks == spec_minute_ticks(f.minute as int, f.second as int)
        &&& self.second_ticks == spec_second_ticks(f.second as int)
    }
}

/// Builds the snapshot for one wall-clock reading.
pub fn snapshot_of(f: &TimeFields) -> (r: ClockSnapshot)
    requires
        f.wf(),
    ensures
        r.rendered_from(*f),
{
    ClockSnapshot {
        time: time_string(f.hour, f.minute, f.second),
        date: date_string(f.year, f.month, f.day),
        weekday: String::from_str(weekday_to_chinese(f.weekday)),
        hour_ticks: hour_angle_ticks(f.hour, f.minute, f.second),
        minute_ticks: minute_angle_ticks(f.minute, f.second),
        second_ticks: second_angle_ticks(f.second),
    }
}

} // verus!
