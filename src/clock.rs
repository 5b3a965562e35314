//! Calendar and clock services taken from `chrono`.
//!
//! Everything here is a thin call into `chrono`; the logic that uses the
//! results lives in the modules that call these functions.
use chrono::{Datelike, Timelike};
use vstd::prelude::*;

verus! {

/// A moment as the local clock reports it: seconds since the Unix epoch,
/// the sub-second part in nanoseconds, and the seconds elapsed since local
/// midnight.
#[derive(Clone, Copy, Debug, PartialEq, Eq, Structural)]
pub struct LocalNow {
    pub timestamp: i64,
    pub nanos: u32,
    pub day_seconds: u32,
}

impl LocalNow {
    /// A reading that a clock without leap seconds can produce.
    pub open spec fn wf(&self) -> bool {
        self.nanos < 1_000_000_000 && self.day_seconds < 86400
    }
}

/// A UTC calendar position: year, month (1 to 12), day of month and the
/// seconds elapsed since midnight.
#[derive(Clone, Copy, Debug, PartialEq, Eq, Structural)]
pub struct CivilTime {
    pub year: i32,
    pub month: u32,
    pub day: u32,
    pub seconds: u32,
}

/// What `NaiveTime::parse_from_str(s, "%H:%M")` yields, as (hour, minute).
pub uninterp spec fn hm_of(s: Seq<char>) -> Option<(u32, u32)>;

/// What `DateTime::parse_from_rfc3339(s)` yields, as (Unix seconds, nanoseconds).
pub uninterp spec fn instant_of(s: Seq<char>) -> Option<(i64, u32)>;

/// What `DateTime::<Utc>::from_timestamp(ts, 0)` yields, as a calendar position.
pub uninterp spec fn civil_of(ts: i64) -> Option<CivilTime>;

/// Relies on `chrono::NaiveTime::parse_from_str` with the format `%H:%M`;
/// a parsed time has an hour below 24 and a minute below 60.
#[verifier::external_body]
pub(crate) fn parse_hm(s: &str) -> (r: Option<(u32, u32)>)
    ensures
        r == hm_of(s@),
        r matches Some((h, m)) ==> h < 24 && m < 60,
{
    match chrono::NaiveTime::parse_from_str(s, "%H:%M") {
        Ok(t) => Some((t.hour(), t.minute())),
        Err(_) => None,
    }
}

/// Relies on `chrono::DateTime::parse_from_rfc3339`: an ISO 8601 date-time
/// with an offset, read as the instant it denotes.
#[verifier::external_body]
pub(crate) fn parse_instant(s: &str) -> (r: Option<(i64, u32)>)
    ensures
        r == instant_of(s@),
{
    match chrono::DateTime::parse_from_rfc3339(s) {
        Ok(t) => Some((t.timestamp(), t.timestamp_subsec_nanos())),
        Err(_) => None,
    }
}

/// Relies on `chrono::DateTime::<Utc>::from_timestamp` and the calendar
/// fields of its result: a month runs from 1 to 12, a day from 1 to 31,
/// and a whole-second time of day stays below 86400.
#[verifier::external_body]
pub(crate) fn utc_civil(ts: i64) -> (r: Option<CivilTime>)
    ensures
        r == civil_of(ts),
        r matches Some(c) ==> 1 <= c.month <= 12 && 1 <= c.day <= 31 && c.seconds < 86400,
{
    match chrono::DateTime::<chrono::Utc>::from_timestamp(ts, 0) {
        Some(t) => Some(
            CivilTime {
                year: t.year(),
                month: t.month(),
                day: t.day(),
                seconds: t.num_seconds_from_midnight(),
            },
        ),
        None => None,
    }
}

/// Relies on `chrono::Local::now`: the current instant and the local time
/// of day. What it returns depends on the clock, so nothing is promised.
#[verifier::external_body]
pub(crate) fn local_now() -> (r: LocalNow) {
    let t = chrono::Local::now();
    LocalNow {
        timestamp: t.timestamp(),
        nanos: t.timestamp_subsec_nanos(),
        day_seconds: t.num_seconds_from_midnight(),
    }
}

} // verus!
