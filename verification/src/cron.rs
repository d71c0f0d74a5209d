use crate::app_env::EnvTimeZone;
use crate::tz::{
    local_clock, local_hour, local_minute, max_offset_seconds, max_unix_seconds, min_unix_seconds,
    tz_name_known, tz_offset_seconds,
};
use crate::ws::InternalMessage;
use vstd::arithmetic::div_mod::{lemma_fundamental_div_mod, lemma_mod_bound, lemma_mod_mod};
use vstd::prelude::*;

verus! {

/// The offset from UTC, in seconds, that the zone `zone` has at `unix_seconds`
/// (zero for a zone that the tz database does not know).
pub open spec fn zone_offset(zone: Seq<char>, unix_seconds: i64) -> int {
    if tz_name_known(zone) {
        tz_offset_seconds(zone, unix_seconds) as int
    } else {
        0
    }
}

/// `unix_seconds` is an instant whose local time in any zone `time` can represent.
pub open spec fn schedulable_instant(unix_seconds: i64) -> bool {
    min_unix_seconds() + max_offset_seconds() <= unix_seconds <= max_unix_seconds() - max_offset_seconds()
}

/// A schedule that requests a backup once a day, at a given local time.
pub struct Croner;

impl Croner {
    /// Whether at the instant `now_unix_seconds` the wall clock of `timezone`
    /// shows the download time `dl_time` (hour, minute).
    pub fn backup_due(now_unix_seconds: i64, timezone: &EnvTimeZone, dl_time: (u8, u8)) -> (due: bool)
        requires
            schedulable_instant(now_unix_seconds),
        ensures
            due == Self::spec_due(now_unix_seconds, timezone@, dl_time),
            tz_name_known(timezone@) ==> (due <==> {
                let local = now_unix_seconds + tz_offset_seconds(timezone@, now_unix_seconds);
                (local % 86400) / 3600 == dl_time.0 && (local % 3600) / 60 == dl_time.1
            }),
            !tz_name_known(timezone@) ==> (due <==> {
                (now_unix_seconds % 86400) / 3600 == dl_time.0 && (now_unix_seconds % 3600) / 60 == dl_time.1
            }),
    {
        let offset = timezone.offset_at(now_unix_seconds);
        match local_clock(now_unix_seconds, offset) {
            Some((hour, minute)) => hour == dl_time.0 && minute == dl_time.1,
            None => false,
        }
    }

    /// The message that the schedule sends at the instant `now_unix_seconds`:
    /// a backup request when the download time has come, else none.
    pub fn tick(now_unix_seconds: i64, timezone: &EnvTimeZone, dl_time: (u8, u8)) -> (message: Option<InternalMessage>)
        requires
            schedulable_instant(now_unix_seconds),
        ensures
            message == (if Self::spec_due(now_unix_seconds, timezone@, dl_time) {
                Some(InternalMessage::RequestBackup)
            } else {
                None
            }),
    {
        if Self::backup_due(now_unix_seconds, timezone, dl_time) {
            Some(InternalMessage::RequestBackup)
        } else {
            None
        }
    }

    /// The wall clock of `zone` shows `dl_time` at `now_unix_seconds`.
    pub open spec fn spec_due(now_unix_seconds: i64, zone: Seq<char>, dl_time: (u8, u8)) -> bool {
        clock_shows(now_unix_seconds as int, zone_offset(zone, now_unix_seconds), dl_time)
    }
}

/// The wall clock at offset `offset_seconds` shows the time `dl_time` (hour,
/// minute) at the instant `unix_seconds`.
pub open spec fn clock_shows(unix_seconds: int, offset_seconds: int, dl_time: (u8, u8)) -> bool {
    local_hour(unix_seconds, offset_seconds) == dl_time.0 && local_minute(unix_seconds, offset_seconds) == dl_time.1
}

/// The download time comes once a day and lasts a minute: while the offset of
/// the zone stays the same, two instants at which the wall clock shows the
/// download time are less than a minute apart, or more than a day less a
/// minute apart. A schedule that looks once every minute therefore requests
/// at most one backup a day.
pub proof fn lemma_download_time_once_a_day(t1: int, t2: int, offset_seconds: int, dl_time: (u8, u8))
    requires
        t1 <= t2,
        clock_shows(t1, offset_seconds, dl_time),
        clock_shows(t2, offset_seconds, dl_time),
    ensures
        t2 - t1 < 60 || t2 - t1 > 86400 - 60,
{
    let x1 = t1 + offset_seconds;
    let x2 = t2 + offset_seconds;
    let a1 = x1 % 86400;
    let a2 = x2 % 86400;
    lemma_mod_mod(x1, 3600, 24);
    lemma_mod_mod(x2, 3600, 24);
    assert(3600 * 24 == 86400);
    lemma_fundamental_div_mod(x1, 86400);
    lemma_fundamental_div_mod(x2, 86400);
    lemma_fundamental_div_mod(a1, 3600);
    lemma_fundamental_div_mod(a2, 3600);
    lemma_fundamental_div_mod(x1 % 3600, 60);
    lemma_fundamental_div_mod(x2 % 3600, 60);
    lemma_mod_bound(x1, 86400);
    lemma_mod_bound(x2, 86400);
    lemma_mod_bound(x1 % 3600, 60);
    lemma_mod_bound(x2 % 3600, 60);
    let base = 3600 * dl_time.0 + 60 * dl_time.1;
    assert(base <= a1 < base + 60);
    assert(base <= a2 < base + 60);
    let d = x2 / 86400 - x1 / 86400;
    assert(x2 - x1 == 86400 * d + (a2 - a1));
    if d >= 1 {
        assert(86400 * d >= 86400) by (nonlinear_arith)
            requires
                d >= 1,
        ;
    } else if d <= -1 {
        assert(86400 * d <= -86400) by (nonlinear_arith)
            requires
                d <= -1,
        ;
    }
}

/// The schedule reads the zone's offset at the very instant it checks: a
/// backup is due exactly when the Unix time shifted by the offset that the tz
/// database gives for that instant (none for an unknown zone) falls, modulo a
/// day, in the minute `dl_time`.
pub proof fn lemma_due_uses_offset_at_that_instant(now: i64, zone: Seq<char>, dl_time: (u8, u8))
    ensures
        tz_name_known(zone) ==> (Croner::spec_due(now, zone, dl_time) <==> {
            let local = now + tz_offset_seconds(zone, now);
            (local % 86400) / 3600 == dl_time.0 && (local % 3600) / 60 == dl_time.1
        }),
        !tz_name_known(zone) ==> (Croner::spec_due(now, zone, dl_time) <==> {
            (now % 86400) / 3600 == dl_time.0 && (now % 3600) / 60 == dl_time.1
        }),
{
}

/// Two looks of the schedule a minute apart never both request a backup,
/// unless the zone's offset changes between them.
pub proof fn lemma_no_request_twice_in_a_row(now: i64, zone: Seq<char>, dl_time: (u8, u8))
    requires
        now + 60 <= i64::MAX,
        zone_offset(zone, now) == zone_offset(zone, (now + 60) as i64),
    ensures
        !(Croner::spec_due(now, zone, dl_time) && Croner::spec_due((now + 60) as i64, zone, dl_time)),
{
    if Croner::spec_due(now, zone, dl_time) && Croner::spec_due((now + 60) as i64, zone, dl_time) {
        lemma_download_time_once_a_day(now as int, now + 60, zone_offset(zone, now), dl_time);
    }
}

} // verus!
