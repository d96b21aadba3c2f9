//! The calls into chrono and chrono-tz, each with the contract the library relies on.
//!
//! chrono's values cross this boundary as the plain fields of `crate::civil`; a time
//! zone crosses it as chrono-tz's `Tz`, which the library only carries.
use vstd::prelude::*;

use chrono::{Datelike, MappedLocalTime, NaiveDate, NaiveDateTime, NaiveTime, TimeZone, Timelike, Utc};
use chrono_tz::Tz;

use crate::civil::{CivilDate, CivilDateTime, CivilTime, Clock};

verus! {

/// A zone of the IANA time zone database, as chrono-tz compiles it in.
#[verifier::external_type_specification]
#[verifier::external_body]
pub struct ExTz(Tz);

/// What chrono's `NaiveDateTime::parse_from_str` reads from a text in a strftime pattern.
pub uninterp spec fn parsed_datetime(text: Seq<char>, pattern: Seq<char>) -> Option<CivilDateTime>;

/// What chrono's `NaiveTime::parse_from_str` reads from a text in a strftime pattern.
pub uninterp spec fn parsed_time(text: Seq<char>, pattern: Seq<char>) -> Option<CivilTime>;

/// What chrono's `NaiveDate::parse_from_str` reads from a text in a strftime pattern.
pub uninterp spec fn parsed_date(text: Seq<char>, pattern: Seq<char>) -> Option<CivilDate>;

/// The instant, in seconds since the epoch, at which the wall clock of a zone shows a
/// given date and time, where exactly one instant does.
pub uninterp spec fn local_instant(tz: Tz, local: CivilDateTime) -> Option<i64>;

/// The date and time that the wall clock of a zone shows at an instant.
pub uninterp spec fn wall_clock(tz: Tz, instant: i64) -> Option<CivilDateTime>;

/// The zone that the database lists under a name.
pub uninterp spec fn zone_named(name: Seq<char>) -> Option<Tz>;

/// The name under which the database lists a zone.
pub uninterp spec fn zone_name(tz: Tz) -> Seq<char>;

/// Relies on chrono's `NaiveDateTime::parse_from_str`: the whole of `text` read as a
/// date and time in the strftime `pattern`, to the second; `None` where chrono
/// returns an error.
#[verifier::external_body]
pub(crate) fn parse_datetime(text: &str, pattern: &str) -> (r: Option<CivilDateTime>)
    ensures
        r == parsed_datetime(text@, pattern@),
{
    match NaiveDateTime::parse_from_str(text, pattern) {
        Ok(d) => Some(CivilDateTime {
            date: CivilDate { year: d.year(), month: d.month(), day: d.day() },
            time: CivilTime { hour: d.hour(), minute: d.minute(), second: d.second() },
        }),
        Err(_) => None,
    }
}

/// Relies on chrono's `NaiveTime::parse_from_str`: the whole of `text` read as a time
/// of day in the strftime `pattern`, to the second; `None` where chrono returns an
/// error.
#[verifier::external_body]
pub(crate) fn parse_time(text: &str, pattern: &str) -> (r: Option<CivilTime>)
    ensures
        r == parsed_time(text@, pattern@),
{
    match NaiveTime::parse_from_str(text, pattern) {
        Ok(t) => Some(CivilTime { hour: t.hour(), minute: t.minute(), second: t.second() }),
        Err(_) => None,
    }
}

/// Relies on chrono's `NaiveDate::parse_from_str`: the whole of `text` read as a
/// calendar date in the strftime `pattern`; `None` where chrono returns an error.
#[verifier::external_body]
pub(crate) fn parse_date(text: &str, pattern: &str) -> (r: Option<CivilDate>)
    ensures
        r == parsed_date(text@, pattern@),
{
    match NaiveDate::parse_from_str(text, pattern) {
        Ok(d) => Some(CivilDate { year: d.year(), month: d.month(), day: d.day() }),
        Err(_) => None,
    }
}

/// Relies on chrono's `TimeZone::from_local_datetime`, as chrono-tz implements it for
/// `Tz`: the instant at which the wall clock of `tz` shows `local`. `None` where the
/// fields name no valid date and time, and where chrono finds no instant (a gap) or
/// two (an overlap).
#[verifier::external_body]
pub(crate) fn localize(tz: &Tz, local: &CivilDateTime) -> (r: Option<i64>)
    ensures
        r == local_instant(*tz, *local),
{
    let date = NaiveDate::from_ymd_opt(local.date.year, local.date.month, local.date.day)?;
    let naive = date.and_hms_opt(local.time.hour, local.time.minute, local.time.second)?;
    match tz.from_local_datetime(&naive) {
        MappedLocalTime::Single(t) => Some(t.timestamp()),
        _ => None,
    }
}

/// Relies on chrono's `TimeZone::timestamp_opt`, as chrono-tz implements it for `Tz`:
/// the date and time that the wall clock of `tz` shows at `instant` seconds after the
/// epoch; `None` where the instant lies outside chrono's calendar range.
#[verifier::external_body]
pub(crate) fn wall_clock_at(tz: &Tz, instant: i64) -> (r: Option<CivilDateTime>)
    ensures
        r == wall_clock(*tz, instant),
{
    match tz.timestamp_opt(instant, 0) {
        MappedLocalTime::Single(t) => Some(CivilDateTime {
            date: CivilDate { year: t.year(), month: t.month(), day: t.day() },
            time: CivilTime { hour: t.hour(), minute: t.minute(), second: t.second() },
        }),
        _ => None,
    }
}

/// Relies on chrono's `Utc::now`: the current instant, and the calendar date in UTC at
/// it. Nothing is promised of the reading.
#[verifier::external_body]
pub(crate) fn read_clock() -> (r: Clock) {
    let now = Utc::now();
    let today = now.date_naive();
    Clock {
        now: now.timestamp(),
        today: CivilDate { year: today.year(), month: today.month(), day: today.day() },
    }
}

/// Relies on chrono-tz's `FromStr for Tz`: the zone listed under exactly `name`.
#[verifier::external_body]
pub(crate) fn parse_zone(name: &str) -> (r: Option<Tz>)
    ensures
        r == zone_named(name@),
{
    match name.parse::<Tz>() {
        Ok(tz) => Some(tz),
        Err(_) => None,
    }
}

/// Relies on chrono-tz's `Tz::name`: the name under which the zone is listed.
#[verifier::external_body]
pub(crate) fn name_of_zone(tz: &Tz) -> (r: String)
    ensures
        r@ == zone_name(*tz),
{
    tz.name().to_string()
}

/// Relies on chrono-tz's constant `UTC`: the zone listed under the name `UTC`.
#[verifier::external_body]
pub(crate) fn utc_zone() -> (r: Tz)
    ensures
        zone_named("UTC"@) == Some(r),
{
    chrono_tz::UTC
}

} // verus!
