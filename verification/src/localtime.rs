//! Reading the local wall clock: the one part of the clock tick that the
//! machine decides. Whatever reading comes back, the snapshot built from
//! it is its exact rendering.

use vstd::prelude::*;
use chrono::Datelike;
use chrono::Timelike;
use crate::clock::{ClockSnapshot, TimeFields, Weekday, snapshot_of};

verus! {

/// One reading of the local wall clock, opaque to the verifier. It holds
/// chrono's time-zone-aware instant; the instant's own type cannot be
/// declared to the verifier, since its time-zone parameter is bound by an
/// outside trait, so the whole struct is opaque instead.
#[verifier::external_body]
pub struct LocalStamp {
    inner: chrono::DateTime<chrono::Local>,
}

/// Relies on chrono::Local::now: the current date and time in the local
/// time zone. Nothing is assumed of the outcome.
#[verifier::external_body]
fn now_stamp() -> LocalStamp {
    LocalStamp { inner: chrono::Local::now() }
}

/// Relies on chrono::Datelike::year: the calendar year; chrono documents
/// no range for it.
#[verifier::external_body]
fn stamp_year(t: &LocalStamp) -> i32 {
    t.inner.year()
}

/// Relies on chrono::Datelike::month, documented to return 1 to 12.
#[verifier::external_body]
fn stamp_month(t: &LocalStamp) -> (r: u32)
    ensures
        1 <= r <= 12,
{
    t.inner.month()
}

/// Relies on chrono::Datelike::day, documented to return 1 to 31.
#[verifier::external_body]
fn stamp_day(t: &LocalStamp) -> (r: u32)
    ensures
        1 <= r <= 31,
{
    t.inner.day()
}

/// Relies on chrono::Timelike::hour, documented to return 0 to 23.
#[verifier::external_body]
fn stamp_hour(t: &LocalStamp) -> (r: u32)
    ensures
        r < 24,
{
    t.inner.hour()
}

/// Relies on chrono::Timelike::minute, documented to return 0 to 59.
#[verifier::external_body]
fn stamp_minute(t: &LocalStamp) -> (r: u32)
    ensures
        r < 60,
{
    t.inner.minute()
}

/// Relies on chrono::Timelike::second, documented to return 0 to 59.
#[verifier::external_body]
fn stamp_second(t: &LocalStamp) -> (r: u32)
    ensures
        r < 60,
{
    t.inner.second()
}

/// Relies on chrono::Datelike::weekday, telling its seven variants apart.
/// Nothing is assumed of which day comes back.
#[verifier::external_body]
fn stamp_weekday(t: &LocalStamp) -> Weekday {
    match t.inner.weekday() {
        chrono::Weekday::Mon => Weekday::Mon,
        chrono::Weekday::Tue => Weekday::Tue,
        chrono::Weekday::Wed => Weekday::Wed,
        chrono::Weekday::Thu => Weekday::Thu,
        chrono::Weekday::Fri => Weekday::Fri,
        chrono::Weekday::Sat => Weekday::Sat,
        chrono::Weekday::Sun => Weekday::Sun,
    }
}

/// Reads the local wall clock once into plain calendar fields.
pub fn now_fields() -> (r: TimeFields)
    ensures
        r.wf(),
{
    let t = now_stamp();
    TimeFields {
        year: stamp_year(&t),
        month: stamp_month(&t),
        day: stamp_day(&t),
        hour: stamp_hour(&t),
        minute: stamp_minute(&t),
        second: stamp_second(&t),
        weekday: stamp_weekday(&t),
    }
}

/// The snapshot for the current local time: whatever reading the clock
/// gave, the result is the exact rendering of that reading.
pub fn current_snapshot() -> (r: ClockSnapshot)
    ensures
        exists|f: TimeFields| f.wf() && r.rendered_from(f),
{
    let f = now_fields();
    let r = snapshot_of(&f);
    proof {
        assert(f.wf() && r.rendered_from(f));
    }
    r
}

} // verus!
