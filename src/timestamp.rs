//! Instants parsed from ISO-8601 timestamps, and whole hours between them,
//! counted as chrono counts the difference of two `DateTime`s.
use vstd::prelude::*;

verus! {

/// A point in time as seconds since the Unix epoch and the nanoseconds
/// past that second.
#[derive(Debug, Clone, Copy, PartialEq, Eq, Structural)]
pub struct Instant {
    pub secs: i64,
    pub nanos: u32,
}

/// The instant a timestamp denotes, as (seconds, nanoseconds), when it is a
/// valid RFC 3339 date and time.
pub uninterp spec fn utc_instant(s: Seq<char>) -> Option<(int, int)>;

/// The plain value of an instant.
pub open spec fn instant_view(i: Instant) -> (int, int) {
    (i.secs as int, i.nanos as int)
}

/// The plain value of an optional instant.
pub open spec fn opt_instant_view(o: Option<Instant>) -> Option<(int, int)> {
    match o {
        Some(i) => Some(instant_view(i)),
        None => None,
    }
}

/// Relies on chrono's `FromStr` for `DateTime<Utc>` (a relaxed RFC 3339:
/// date, `T` or space, time, offset) and on `timestamp` and
/// `timestamp_subsec_nanos`: the result depends on the text alone.
#[verifier::external_body]
pub(crate) fn parse_utc(s: &str) -> (r: Option<Instant>)
    ensures
        opt_instant_view(r) == utc_instant(s@),
{
    match s.parse::<chrono::DateTime<chrono::Utc>>() {
        Ok(dt) => Some(Instant { secs: dt.timestamp(), nanos: dt.timestamp_subsec_nanos() }),
        Err(_) => None,
    }
}

/// Nanoseconds in an hour.
pub open spec fn hour_nanos() -> int {
    3_600_000_000_000
}

/// The second of the day an instant falls in.
pub open spec fn second_of_day(secs: int) -> int {
    secs % 86400
}

/// The leap second that a difference of instants counts on top of the
/// difference of their seconds: an instant inside a leap second (nanoseconds
/// at or past one second) that lies at an earlier second of the day than
/// the other adds one second when it is the start, and takes one away when
/// it is the end.
pub open spec fn leap_correction(start: (int, int), t: (int, int)) -> int {
    let a = second_of_day(t.0);
    let b = second_of_day(start.0);
    if a > b && start.1 >= 1_000_000_000 {
        1
    } else if a < b && t.1 >= 1_000_000_000 {
        -1
    } else {
        0
    }
}

/// Nanoseconds from `start` to `t`.
pub open spec fn nanos_between(start: (int, int), t: (int, int)) -> int {
    (t.0 - start.0 + leap_correction(start, t)) * 1_000_000_000 + (t.1 - start.1)
}

/// Whole hours from `start` to `t`, truncated toward zero.
pub open spec fn elapsed_hours(start: (int, int), t: (int, int)) -> int {
    let d = nanos_between(start, t);
    if d >= 0 {
        d / hour_nanos()
    } else {
        -((-d) / hour_nanos())
    }
}

/// The second of the day of a count of seconds since the epoch.
fn day_second(secs: i64) -> (r: i64)
    ensures
        r == second_of_day(secs as int),
{
    match secs.checked_rem_euclid(86400) {
        Some(r) => r,
        None => 0,
    }
}

/// Whole hours from `start` to `t`, truncated toward zero, counting a leap
/// second as a difference of `DateTime`s counts it.
pub fn hours_between(start: Instant, t: Instant) -> (r: i128)
    ensures
        r == elapsed_hours(instant_view(start), instant_view(t)),
{
    let a = day_second(t.secs);
    let b = day_second(start.secs);
    let leap: i128 = if a > b && start.nanos >= 1_000_000_000 {
        1
    } else if a < b && t.nanos >= 1_000_000_000 {
        -1
    } else {
        0
    };
    let d: i128 = (t.secs as i128 - start.secs as i128 + leap) * 1_000_000_000 + (t.nanos as i128
        - start.nanos as i128);
    if d >= 0 {
        d / 3_600_000_000_000
    } else {
        let m: i128 = 0 - d;
        0 - m / 3_600_000_000_000
    }
}

} // verus!
