//! Calendar dates and wall-clock times as plain fields, and their fixed rendering.
use vstd::prelude::*;
use vstd::string::*;

use crate::text::{append_zero_padded, zero_padded};

verus! {

/// A proleptic Gregorian calendar date, with no time zone.
#[derive(Clone, Copy, Debug, PartialEq, Eq, Structural)]
pub struct CivilDate {
    pub year: i32,
    pub month: u32,
    pub day: u32,
}

/// A time of day on a 24-hour clock, to the second, with no time zone.
#[derive(Clone, Copy, Debug, PartialEq, Eq, Structural)]
pub struct CivilTime {
    pub hour: u32,
    pub minute: u32,
    pub second: u32,
}

/// A calendar date and a time of day, as a wall clock shows them, with no time zone.
#[derive(Clone, Copy, Debug, PartialEq, Eq, Structural)]
pub struct CivilDateTime {
    pub date: CivilDate,
    pub time: CivilTime,
}

/// One reading of the system clock: the instant, in seconds since the epoch, and
/// the calendar date in UTC at that instant.
#[derive(Clone, Copy, Debug, PartialEq, Eq, Structural)]
pub struct Clock {
    pub now: i64,
    pub today: CivilDate,
}

/// The first second of a day.
pub open spec fn midnight() -> CivilTime {
    CivilTime { hour: 0, minute: 0, second: 0 }
}

/// A date at a time of day.
pub open spec fn at_time(date: CivilDate, time: CivilTime) -> CivilDateTime {
    CivilDateTime { date, time }
}

/// The year as the output template writes it: four digits, zero-padded, for the
/// years 0 to 9999; outside them a sign and at least four digits.
pub open spec fn year_text(year: int) -> Seq<char> {
    if 0 <= year <= 9999 {
        zero_padded(year as nat, 4)
    } else if year < 0 {
        seq!['-'] + zero_padded((-year) as nat, 4)
    } else {
        seq!['+'] + zero_padded(year as nat, 4)
    }
}

/// The fixed output template `MM-DD-YYYY HH:MM:SS`.
pub open spec fn datetime_text(d: CivilDateTime) -> Seq<char> {
    zero_padded(d.date.month as nat, 2) + seq!['-'] + zero_padded(d.date.day as nat, 2) + seq!['-']
        + year_text(d.date.year as int) + seq![' '] + zero_padded(d.time.hour as nat, 2) + seq![':']
        + zero_padded(d.time.minute as nat, 2) + seq![':'] + zero_padded(d.time.second as nat, 2)
}

impl CivilDate {
    /// Midnight at the start of this date.
    pub fn at_midnight(&self) -> (r: CivilDateTime)
        ensures
            r == at_time(*self, midnight()),
    {
        CivilDateTime { date: *self, time: CivilTime { hour: 0, minute: 0, second: 0 } }
    }
}

fn append_year(s: &mut String, year: i32)
    ensures
        final(s)@ == old(s)@ + year_text(year as int),
{
    proof {
        reveal_strlit("-");
        reveal_strlit("+");
    }
    if 0 <= year && year <= 9999 {
        append_zero_padded(s, year as u32, 4);
    } else if year < 0 {
        s.append("-");
        let magnitude: u32 = ((-(year + 1)) as u32) + 1;
        append_zero_padded(s, magnitude, 4);
        assert(final(s)@ =~= old(s)@ + year_text(year as int));
    } else {
        s.append("+");
        append_zero_padded(s, year as u32, 4);
        assert(final(s)@ =~= old(s)@ + year_text(year as int));
    }
}

impl CivilDateTime {
    /// Renders this date and time in the fixed template `MM-DD-YYYY HH:MM:SS`.
    pub fn render(&self) -> (r: String)
        ensures
            r@ == datetime_text(*self),
    {
        proof {
            reveal_strlit("-");
            reveal_strlit(" ");
            reveal_strlit(":");
        }
        let mut s = String::new();
        append_zero_padded(&mut s, self.date.month, 2);
        s.append("-");
        append_zero_padded(&mut s, self.date.day, 2);
        s.append("-");
        append_year(&mut s, self.date.year);
        s.append(" ");
        append_zero_padded(&mut s, self.time.hour, 2);
        s.append(":");
        append_zero_padded(&mut s, self.time.minute, 2);
        s.append(":");
        append_zero_padded(&mut s, self.time.second, 2);
        assert(s@ =~= datetime_text(*self));
        s
    }
}

} // verus!
