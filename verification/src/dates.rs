//! Instants as the endpoints show them, and the windows of time they cover.
use vstd::prelude::*;
use crate::threads::{Timestamp, TimeFields, rfc3339_fields, parse_rfc3339, DAY_SECS, local_day, floor_day};

verus! {

/// What `chrono::DateTime::<Utc>::from_timestamp` followed by `to_rfc3339`
/// makes of an instant (seconds, nanoseconds); `None` where chrono cannot
/// represent it.
pub uninterp spec fn rfc3339_of(secs: int, nanos: int) -> Option<Seq<char>>;

/// What `chrono::DateTime::<Utc>::from_timestamp` followed by
/// `format("%Y-%m-%d")` makes of an instant.
pub uninterp spec fn utc_date_of(secs: int, nanos: int) -> Option<Seq<char>>;

/// What `chrono::DateTime::<Utc>::from_timestamp` followed by
/// `format("%Y-%m-%dT%H:%M:%SZ")` makes of an instant.
pub uninterp spec fn utc_second_of(secs: int, nanos: int) -> Option<Seq<char>>;

/// Writes an instant as RFC 3339 text with `chrono::DateTime::to_rfc3339`.
/// Trusted: the result is `rfc3339_of` of the instant.
#[verifier::external_body]
pub(crate) fn rfc3339_text(t: &Timestamp) -> (r: Option<String>)
    ensures
        match r {
            Some(s) => rfc3339_of(t.secs as int, t.nanos as int) == Some(s@),
            None => rfc3339_of(t.secs as int, t.nanos as int) is None,
        },
{
    chrono::DateTime::from_timestamp(t.secs, t.nanos).map(|dt| dt.to_rfc3339())
}

/// Writes the UTC date of an instant with chrono's `format("%Y-%m-%d")`.
/// Trusted: the result is `utc_date_of` of the instant.
#[verifier::external_body]
pub(crate) fn utc_date_text(t: &Timestamp) -> (r: Option<String>)
    ensures
        match r {
            Some(s) => utc_date_of(t.secs as int, t.nanos as int) == Some(s@),
            None => utc_date_of(t.secs as int, t.nanos as int) is None,
        },
{
    chrono::DateTime::from_timestamp(t.secs, t.nanos).map(|dt| dt.format("%Y-%m-%d").to_string())
}

/// Writes an instant to the second with chrono's
/// `format("%Y-%m-%dT%H:%M:%SZ")`. Trusted: the result is `utc_second_of`
/// of the instant.
#[verifier::external_body]
pub(crate) fn utc_second_text(t: &Timestamp) -> (r: Option<String>)
    ensures
        match r {
            Some(s) => utc_second_of(t.secs as int, t.nanos as int) == Some(s@),
            None => utc_second_of(t.secs as int, t.nanos as int) is None,
        },
{
    chrono::DateTime::from_timestamp(t.secs, t.nanos).map(|dt| dt.format("%Y-%m-%dT%H:%M:%SZ").to_string())
}

/// The instant `days` days before `t`.
pub open spec fn days_before(t: Timestamp, days: int) -> (int, int) {
    (t.secs - days * DAY_SECS, t.nanos as int)
}

/// The instant `days` days before `now`.
pub fn shift_days(t: &Timestamp, days: i64) -> (r: Timestamp)
    requires
        -1_099_511_627_776i64 <= days <= 1_099_511_627_776i64,
        i64::MIN + 144_115_188_075_855_872i64 <= t.secs <= i64::MAX - 144_115_188_075_855_872i64,
    ensures
        (r.secs as int, r.nanos as int) == days_before(*t, days as int),
{
    assert(days * 86400 <= 144_115_188_075_855_872i64 && days * 86400 >= -144_115_188_075_855_872i64) by (nonlinear_arith)
        requires
            -1_099_511_627_776i64 <= days <= 1_099_511_627_776i64,
    ;
    Timestamp { secs: t.secs - days * DAY_SECS, nanos: t.nanos }
}

/// Days of history the insights and the emotion summary look at.
pub const WINDOW_DAYS: i64 = 30;

/// The window of the insights and the emotion summary, as their reports name
/// it: the UTC dates of 30 days before `now` and of `now`. `None` where
/// chrono cannot write one of them.
pub fn report_window(now: &Timestamp) -> (r: Option<(String, String)>)
    requires
        i64::MIN + 144_115_188_075_855_872i64 <= now.secs <= i64::MAX - 144_115_188_075_855_872i64,
    ensures
        ({
            let start = days_before(*now, WINDOW_DAYS as int);
            match r {
                Some((a, b)) => utc_date_of(start.0, start.1) == Some(a@) && utc_date_of(now.secs as int, now.nanos as int) == Some(b@),
                None => utc_date_of(start.0, start.1) is None || utc_date_of(now.secs as int, now.nanos as int) is None,
            }
        }),
{
    let start = shift_days(now, WINDOW_DAYS);
    match utc_date_text(&start) {
        Some(a) => match utc_date_text(now) {
            Some(b) => Some((a, b)),
            None => None,
        },
        None => None,
    }
}

/// The earliest post timestamp of the subject graph: `days` days before
/// `now`, where the request names a number of days.
pub fn graph_cutoff(days: Option<i32>, now: &Timestamp) -> (r: Option<Timestamp>)
    requires
        i64::MIN + 144_115_188_075_855_872i64 <= now.secs <= i64::MAX - 144_115_188_075_855_872i64,
    ensures
        match days {
            Some(d) => r matches Some(t) && (t.secs as int, t.nanos as int) == days_before(*now, d as int),
            None => r is None,
        },
{
    match days {
        Some(d) => Some(shift_days(now, d as i64)),
        None => None,
    }
}

/// The query of the debug listing of recent posts.
#[derive(Debug)]
pub struct DebugQuery {
    pub since: Option<String>,
}

/// The earliest post timestamp of the debug listing: the `since` text where
/// it parses as RFC 3339, else one day before `now`.
pub fn debug_since(since: Option<&str>, now: &Timestamp) -> (r: Timestamp)
    requires
        i64::MIN + 144_115_188_075_855_872i64 <= now.secs <= i64::MAX - 144_115_188_075_855_872i64,
    ensures
        ({
            let parsed = match since {
                Some(s) => rfc3339_fields(s@),
                None => None,
            };
            match parsed {
                Some(f) => r.secs as int == f.0 && r.nanos as int == f.1,
                None => (r.secs as int, r.nanos as int) == days_before(*now, 1),
            }
        }),
{
    match since {
        Some(s) => match parse_rfc3339(s) {
            Some(f) => {
                return Timestamp { secs: f.secs, nanos: f.nanos };
            },
            None => {},
        },
        None => {},
    }
    shift_days(now, 1)
}

/// The first day of a chart's window: the date, in its own offset, of the
/// `since` text where it parses as RFC 3339 (days since 1970-01-01).
pub open spec fn since_day_of(since: Option<Seq<char>>) -> Option<int> {
    match since {
        Some(s) => match rfc3339_fields(s) {
            Some(f) => Some(local_day(f.0, f.2)),
            None => None,
        },
        None => None,
    }
}

/// Reads the first day of a chart's window out of its `since` parameter.
pub fn since_day(since: Option<&str>) -> (r: Option<i64>)
    ensures
        r matches Some(d) ==> since_day_of(match since { Some(s) => Some(s@), None => None }) == Some(d as int),
        r is None ==> since_day_of(match since { Some(s) => Some(s@), None => None }) is None,
{
    match since {
        Some(s) => match parse_rfc3339(s) {
            Some(f) => Some(floor_day(f.secs, f.offset)),
            None => None,
        },
        None => None,
    }
}

/// An instant in microseconds since the epoch, as the database keeps it.
pub open spec fn micros_of(secs: int, nanos: int) -> int {
    secs * 1_000_000 + nanos / 1000
}

/// The first instant of a chart's window, in microseconds: that of the
/// `since` text where it parses as RFC 3339 and the microseconds fit in an
/// `i64`.
pub open spec fn since_micros_of(since: Option<Seq<char>>) -> Option<int> {
    match since {
        Some(s) => match rfc3339_fields(s) {
            Some(f) => if i64::MIN <= micros_of(f.0, f.1) <= i64::MAX {
                Some(micros_of(f.0, f.1))
            } else {
                None
            },
            None => None,
        },
        None => None,
    }
}

/// Reads the first instant of a chart's window out of its `since` parameter.
pub fn since_micros(since: Option<&str>) -> (r: Option<i64>)
    ensures
        r matches Some(m) ==> since_micros_of(match since { Some(s) => Some(s@), None => None }) == Some(m as int),
        r is None ==> since_micros_of(match since { Some(s) => Some(s@), None => None }) is None,
{
    match since {
        Some(s) => match parse_rfc3339(s) {
            Some(f) => {
                let m: i128 = f.secs as i128 * 1_000_000 + (f.nanos / 1000) as i128;
                if i64::MIN as i128 <= m && m <= i64::MAX as i128 {
                    Some(m as i64)
                } else {
                    None
                }
            },
            None => None,
        },
        None => None,
    }
}

} // verus!
