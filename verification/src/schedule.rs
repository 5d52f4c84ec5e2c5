//! When the nightly sync runs: at the next 2am in the configured time zone,
//! or at 3am where a change of clocks skips 2am.
use vstd::prelude::*;
use crate::threads::{Timestamp, local_day, floor_day};

verus! {

/// Whether chrono-tz knows a time zone of this name (its `FromStr`).
pub uninterp spec fn zone_known(zone: Seq<char>) -> bool;

/// The offset from UTC, in seconds, of the time zone named `zone` at the
/// UTC instant `utc_secs`, as chrono-tz gives it; `None` where the name is
/// unknown or chrono cannot represent the instant.
pub uninterp spec fn zone_offset(zone: Seq<char>, utc_secs: int) -> Option<int>;

/// The earliest UTC instant (seconds) at which the clocks of the time zone
/// named `zone` show the wall time `local_secs` (seconds since 1970-01-01
/// 00:00 of that wall clock), as chrono's `and_local_timezone(..).earliest()`
/// gives it; `None` where no instant does (a skipped hour), the name is
/// unknown, or chrono cannot represent the time.
pub uninterp spec fn zone_earliest(zone: Seq<char>, local_secs: int) -> Option<int>;

/// Whether chrono-tz parses `zone` as a time zone (`str::parse::<Tz>`).
/// Trusted: the result is `zone_known` of the name.
#[verifier::external_body]
fn is_known_zone(zone: &str) -> (r: bool)
    ensures
        r == zone_known(zone@),
{
    zone.parse::<chrono_tz::Tz>().is_ok()
}

/// The offset of a time zone at an instant, through chrono-tz's
/// `offset_from_utc_datetime`. Trusted: the result is `zone_offset`.
#[verifier::external_body]
fn offset_at(zone: &str, utc_secs: i64) -> (r: Option<i32>)
    ensures
        match r {
            Some(o) => zone_offset(zone@, utc_secs as int) == Some(o as int),
            None => zone_offset(zone@, utc_secs as int) is None,
        },
{
    let tz = zone.parse::<chrono_tz::Tz>().ok()?;
    let utc = chrono::DateTime::from_timestamp(utc_secs, 0)?;
    let offset = chrono::TimeZone::offset_from_utc_datetime(&tz, &utc.naive_utc());
    Some(chrono::Offset::fix(&offset).local_minus_utc())
}

/// The earliest instant of a wall time in a time zone, through chrono's
/// `and_local_timezone(..).earliest()`. Trusted: the result is
/// `zone_earliest`.
#[verifier::external_body]
fn earliest_at(zone: &str, local_secs: i64) -> (r: Option<i64>)
    ensures
        match r {
            Some(t) => zone_earliest(zone@, local_secs as int) == Some(t as int),
            None => zone_earliest(zone@, local_secs as int) is None,
        },
{
    let tz = zone.parse::<chrono_tz::Tz>().ok()?;
    let wall = chrono::DateTime::from_timestamp(local_secs, 0)?.naive_utc();
    wall.and_local_timezone(tz).earliest().map(|t| t.timestamp())
}

/// The time zone of the nightly sync: the setting (default "UTC") where
/// chrono-tz knows it, else "UTC".
pub open spec fn schedule_zone_name(setting: Option<Seq<char>>) -> Seq<char> {
    let name = match setting {
        Some(s) => s,
        None => "UTC"@,
    };
    if zone_known(name) { name } else { "UTC"@ }
}

/// Resolves the `TIMEZONE` setting into the zone the nightly sync uses.
pub fn schedule_zone(setting: Option<&str>) -> (z: String)
    ensures
        z@ == schedule_zone_name(match setting {
            Some(s) => Some(s@),
            None => None,
        }),
{
    let name: &str = match setting {
        Some(s) => s,
        None => "UTC",
    };
    if is_known_zone(name) {
        String::from_str(name)
    } else {
        String::from_str("UTC")
    }
}

/// The wall time of the next run after the wall time `local` (both in
/// seconds since 1970-01-01 00:00 of the wall clock): 2am of the same day
/// before 2am, else 2am of the next day.
pub open spec fn next_run_wall(local: int) -> int {
    let day = local / 86400;
    let hour = (local - day * 86400) / 3600;
    let target_day = if hour >= 2 { day + 1 } else { day };
    target_day * 86400 + 7200
}

/// The UTC instant of the next run after `now_secs` in the zone: the
/// earliest instant of the next 2am wall time, else that of 3am the same
/// day; `None` where neither exists or the zone has no offset then.
pub open spec fn next_run(zone: Seq<char>, now_secs: int) -> Option<int> {
    match zone_offset(zone, now_secs) {
        Some(off) => {
            let wall = next_run_wall(now_secs + off);
            match zone_earliest(zone, wall) {
                Some(t) => Some(t),
                None => zone_earliest(zone, wall + 3600),
            }
        },
        None => None,
    }
}

/// The UTC instant of the next nightly run after `now`.
pub fn next_run_at(zone: &str, now: &Timestamp) -> (r: Option<i64>)
    requires
        i64::MIN + 144_115_188_075_855_872i64 <= now.secs <= i64::MAX - 144_115_188_075_855_872i64,
    ensures
        match r {
            Some(t) => next_run(zone@, now.secs as int) == Some(t as int),
            None => next_run(zone@, now.secs as int) is None,
        },
{
    let off = match offset_at(zone, now.secs) {
        Some(o) => o,
        None => {
            return None;
        },
    };
    let day = floor_day(now.secs, off);
    let local: i128 = now.secs as i128 + off as i128;
    assert(day as int == local / 86400);
    let hour: i128 = (local - day as i128 * 86400) / 3600;
    let target_day: i64 = if hour >= 2 { day + 1 } else { day };
    let wall: i64 = target_day * 86400 + 7200;
    match earliest_at(zone, wall) {
        Some(t) => Some(t),
        None => earliest_at(zone, wall + 3600),
    }
}

/// How long to sleep from `now` until the UTC second `target`, in
/// nanoseconds; negative where `target` has passed.
pub open spec fn wait_nanos(target: int, now: Timestamp) -> int {
    (target - now.secs) * 1_000_000_000 - now.nanos
}

/// The sleep before the next run as (seconds, nanoseconds): the time left
/// until `target`, or one minute where `target` has passed.
pub fn sleep_until(target: i64, now: &Timestamp) -> (r: (u64, u32))
    requires
        now.nanos < 1_000_000_000,
    ensures
        wait_nanos(target as int, *now) < 0 ==> r == (60u64, 0u32),
        wait_nanos(target as int, *now) >= 0 ==> {
            &&& r.1 < 1_000_000_000
            &&& r.0 * 1_000_000_000 + r.1 == wait_nanos(target as int, *now)
        },
{
    let d: i128 = target as i128 - now.secs as i128;
    if d < 0 || (d == 0 && now.nanos > 0) {
        assert(wait_nanos(target as int, *now) < 0) by (nonlinear_arith)
            requires
                d == target - now.secs,
                d < 0 || (d == 0 && now.nanos > 0),
                now.nanos >= 0,
        ;
        (60, 0)
    } else if now.nanos == 0 {
        assert(d * 1_000_000_000 == wait_nanos(target as int, *now));
        (d as u64, 0)
    } else {
        assert((d - 1) * 1_000_000_000 + (1_000_000_000 - now.nanos) == wait_nanos(target as int, *now)) by (nonlinear_arith)
            requires
                d == target - now.secs,
        ;
        ((d - 1) as u64, 1_000_000_000 - now.nanos)
    }
}

/// The next run is the next 2am on the wall clock: strictly after the wall
/// time `local`, at most one day after it, and at 02:00 of its day.
pub proof fn law_next_run_is_the_next_2am(local: int)
    ensures
        local < next_run_wall(local) <= local + 86400,
        next_run_wall(local) % 86400 == 7200,
{
    let day = local / 86400;
    let r = local - day * 86400;
    assert(0 <= r < 86400);
    assert(r / 3600 >= 2 <==> r >= 7200);
    let run_day = if r >= 7200 { day + 1 } else { day };
    assert((run_day * 86400 + 7200) % 86400 == 7200) by (nonlinear_arith);
}

/// Where the zone's offset stays the same from `now_secs` to the next run,
/// the nightly run is scheduled strictly in the future and within a day.
pub proof fn law_next_run_is_in_the_future(zone: Seq<char>, now_secs: int, off: int)
    requires
        zone_offset(zone, now_secs) == Some(off),
        zone_earliest(zone, next_run_wall(now_secs + off)) == Some(next_run_wall(now_secs + off) - off),
    ensures
        next_run(zone, now_secs) matches Some(t) && now_secs < t <= now_secs + 86400,
{
    law_next_run_is_the_next_2am(now_secs + off);
}

} // verus!
