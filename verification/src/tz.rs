//! The clock and the tz database, through the `time` and `time-tz` crates.
use time::{OffsetDateTime, UtcOffset};
use time_tz::{timezones, Offset, TimeZone};
use vstd::prelude::*;

verus! {

/// The earliest instant that `time` represents: -9999-01-01 00:00:00 UTC, in Unix seconds.
pub open spec fn min_unix_seconds() -> int {
    -377705116800
}

/// The latest instant that `time` represents: 9999-12-31 23:59:59 UTC, in Unix seconds.
pub open spec fn max_unix_seconds() -> int {
    253402300799
}

/// `unix_seconds` is an instant that `time` represents.
pub open spec fn representable_instant(unix_seconds: i64) -> bool {
    min_unix_seconds() <= unix_seconds <= max_unix_seconds()
}

/// The largest offset from UTC, in seconds, that `time` represents: 25:59:59.
pub open spec fn max_offset_seconds() -> int {
    93599
}

/// Whether the tz database of `time-tz` holds a zone by this name.
pub uninterp spec fn tz_name_known(name: Seq<char>) -> bool;

/// The offset from UTC, in seconds, that the zone `name` of the tz database
/// has at the instant `unix_seconds`.
pub uninterp spec fn tz_offset_seconds(name: Seq<char>, unix_seconds: i64) -> i32;

/// The hour of the wall clock at offset `offset_seconds` at the instant `unix_seconds`.
pub open spec fn local_hour(unix_seconds: int, offset_seconds: int) -> int {
    ((unix_seconds + offset_seconds) % 86400) / 3600
}

/// The minute of the wall clock at offset `offset_seconds` at the instant `unix_seconds`.
pub open spec fn local_minute(unix_seconds: int, offset_seconds: int) -> int {
    ((unix_seconds + offset_seconds) % 3600) / 60
}

/// Calls `time_tz::timezones::get_by_name` and tells whether it found a zone.
/// Claimed: the answer is a function of the name alone (the database is
/// compiled into `time-tz`).
#[verifier::external_body]
pub(crate) fn tz_known(name: &str) -> (known: bool)
    ensures
        known == tz_name_known(name@),
{
    timezones::get_by_name(name).is_some()
}

/// Looks the zone up with `time_tz::timezones::get_by_name` and, when it is
/// there, asks `TimeZone::get_offset_utc` for its offset at the instant
/// `unix_seconds` (`Offset::to_utc`, then `UtcOffset::whole_seconds`).
/// Claimed: a result comes back exactly for the names that `tz_known`
/// accepts, it is a function of the name and the instant, and it lies in the
/// range of a `UtcOffset` (plus or minus 25:59:59).
#[verifier::external_body]
pub(crate) fn tz_offset_at(name: &str, unix_seconds: i64) -> (offset: Option<i32>)
    requires
        min_unix_seconds() <= unix_seconds <= max_unix_seconds(),
    ensures
        offset is Some <==> tz_name_known(name@),
        offset matches Some(s) ==> s == tz_offset_seconds(name@, unix_seconds)
            && -max_offset_seconds() <= s <= max_offset_seconds(),
{
    match timezones::get_by_name(name) {
        Some(zone) => {
            let instant = OffsetDateTime::from_unix_timestamp(unix_seconds).unwrap();
            Some(zone.get_offset_utc(&instant).to_utc().whole_seconds())
        },
        None => None,
    }
}

/// Reads the clock with `OffsetDateTime::now_utc` and gives its Unix timestamp.
/// Claimed: only that the instant lies in the range that `time` represents.
#[verifier::external_body]
pub(crate) fn now_unix_seconds() -> (now: i64)
    ensures
        min_unix_seconds() <= now <= max_unix_seconds(),
{
    OffsetDateTime::now_utc().unix_timestamp()
}

/// The hour and minute of the wall clock at offset `offset_seconds` at the
/// instant `unix_seconds`: `OffsetDateTime::from_unix_timestamp`,
/// `UtcOffset::from_whole_seconds`, `OffsetDateTime::checked_to_offset`, then
/// `hour` and `minute`.
/// Claimed: the wall clock is the instant shifted by the offset, taken modulo
/// a day (`time` counts no leap seconds); a result comes back whenever the
/// instant, the offset and the shifted instant lie in the ranges that `time`
/// represents.
#[verifier::external_body]
pub(crate) fn local_clock(unix_seconds: i64, offset_seconds: i32) -> (clock: Option<(u8, u8)>)
    ensures
        (min_unix_seconds() <= unix_seconds <= max_unix_seconds()
            && -max_offset_seconds() <= offset_seconds <= max_offset_seconds()
            && min_unix_seconds() <= unix_seconds + offset_seconds <= max_unix_seconds())
            ==> clock is Some,
        clock matches Some((h, m)) ==> h == local_hour(unix_seconds as int, offset_seconds as int)
            && m == local_minute(unix_seconds as int, offset_seconds as int),
{
    match (OffsetDateTime::from_unix_timestamp(unix_seconds), UtcOffset::from_whole_seconds(offset_seconds)) {
        (Ok(instant), Ok(offset)) => match instant.checked_to_offset(offset) {
            Some(local) => Some((local.hour(), local.minute())),
            None => None,
        },
        _ => None,
    }
}

} // verus!
