//! The resolution engine: text to epoch seconds, and epoch seconds to text.
use vstd::prelude::*;
use vstd::string::*;

use chrono_tz::Tz;

use crate::chrono_api::{
    local_instant, localize, parse_date, parse_datetime, parse_time, parsed_date, parsed_datetime,
    parsed_time, read_clock, wall_clock, wall_clock_at,
};
use crate::civil::{at_time, datetime_text, midnight, CivilDate, CivilDateTime, CivilTime, Clock};
use crate::patterns::{candidate_patterns, candidates, texts, Candidate, PatternKind};
use crate::text::{decimal, decimal_text, i64_value, parse_i64, same_text};

verus! {

/// The failure of a text that no pattern, custom token or keyword reads, or whose
/// reading names no single instant in the zone.
pub const INVALID_ARG: &'static str = "Invalid Pattern";

/// The failure of an epoch outside the calendar range.
pub const EPOCH_OUT_OF_RANGE: &'static str = "Error parsing epoch: input is out of range";

/// Epochs of a greater magnitude are taken to count milliseconds.
pub const PROBABLY_MILLIS_BOUND: i64 = 1000000000000;

/// The seconds in one day.
pub const SECONDS_PER_DAY: i64 = 86400;

/// The characters of each side of a result.
pub open spec fn text_result(r: Result<String, String>) -> Result<Seq<char>, Seq<char>> {
    match r {
        Ok(s) => Ok(s@),
        Err(e) => Err(e@),
    }
}

/// Whether candidate `c` reads the whole of `arg`.
pub open spec fn reads(c: (PatternKind, Seq<char>), arg: Seq<char>) -> bool {
    match c.0 {
        PatternKind::DateTime => parsed_datetime(arg, c.1) is Some,
        PatternKind::Time => parsed_time(arg, c.1) is Some,
        PatternKind::Date => parsed_date(arg, c.1) is Some,
    }
}

/// The wall-clock date and time that candidate `c` reads from `arg`: a time of day
/// falls on `today`, a date alone at its midnight.
pub open spec fn reading(c: (PatternKind, Seq<char>), arg: Seq<char>, today: CivilDate) -> CivilDateTime {
    match c.0 {
        PatternKind::DateTime => parsed_datetime(arg, c.1).unwrap(),
        PatternKind::Time => at_time(today, parsed_time(arg, c.1).unwrap()),
        PatternKind::Date => at_time(parsed_date(arg, c.1).unwrap(), midnight()),
    }
}

/// The first candidate, from index `i` on, that reads `arg`.
pub open spec fn first_reader(cands: Seq<(PatternKind, Seq<char>)>, arg: Seq<char>, i: int) -> Option<
    (PatternKind, Seq<char>),
>
    decreases cands.len() - i,
{
    if 0 <= i < cands.len() {
        if reads(cands[i], arg) {
            Some(cands[i])
        } else {
            first_reader(cands, arg, i + 1)
        }
    } else {
        None
    }
}

/// The instant that a relative keyword names, against the clock reading `now`.
pub open spec fn keyword_instant(arg: Seq<char>, now: int) -> Option<int> {
    if arg == "yesterday"@ {
        Some(now - SECONDS_PER_DAY)
    } else if arg == "now"@ {
        Some(now)
    } else if arg == "tomorrow"@ {
        Some(now + SECONDS_PER_DAY)
    } else {
        None
    }
}

/// The epoch text of an instant found by localization, or the pattern failure.
pub open spec fn instant_text(instant: Option<i64>) -> Result<Seq<char>, Seq<char>> {
    match instant {
        Some(e) => Ok(decimal(e as int)),
        None => Err(INVALID_ARG@),
    }
}

/// What `arg` resolves to in zone `tz`: the first candidate that reads it, in the
/// order of `candidates`, localized in `tz`; failing every candidate, a relative
/// keyword; failing that, `INVALID_ARG`.
pub open spec fn resolve(arg: Seq<char>, tz: Tz, custom_tokens: Seq<Seq<char>>, clock: Clock) -> Result<
    Seq<char>,
    Seq<char>,
> {
    match first_reader(candidates(custom_tokens), arg, 0) {
        Some(c) => instant_text(local_instant(tz, reading(c, arg, clock.today))),
        None => match keyword_instant(arg, clock.now as int) {
            Some(e) => Ok(decimal(e)),
            None => Err(INVALID_ARG@),
        },
    }
}

/// Whether resolving `arg` reads the clock: it is a time of day alone, anchored to
/// today, or a relative keyword.
pub open spec fn needs_clock(arg: Seq<char>, custom_tokens: Seq<Seq<char>>) -> bool {
    match first_reader(candidates(custom_tokens), arg, 0) {
        Some(c) => c.0 == PatternKind::Time,
        None => keyword_instant(arg, 0) is Some,
    }
}

/// Whether an epoch's magnitude marks it as milliseconds.
pub open spec fn looks_like_millis(epoch: int) -> bool {
    epoch > PROBABLY_MILLIS_BOUND || epoch < -PROBABLY_MILLIS_BOUND
}

/// The seconds an epoch stands for: milliseconds divided by 1000, rounding toward
/// zero; anything else as it is.
pub open spec fn epoch_seconds(epoch: int) -> int {
    if !looks_like_millis(epoch) {
        epoch
    } else if epoch > 0 {
        epoch / 1000
    } else {
        -((-epoch) / 1000)
    }
}

/// The text of an epoch in zone `tz`, in the template `MM-DD-YYYY HH:MM:SS`.
pub open spec fn epoch_text(epoch: int, tz: Tz) -> Result<Seq<char>, Seq<char>> {
    match wall_clock(tz, epoch_seconds(epoch) as i64) {
        Some(d) => Ok(datetime_text(d)),
        None => Err(EPOCH_OUT_OF_RANGE@),
    }
}

/// The epoch text of `datetime` read as wall-clock time in `tz`.
fn datetime_to_epoch(datetime: &CivilDateTime, tz: &Tz) -> (r: Result<String, String>)
    ensures
        text_result(r) == instant_text(local_instant(*tz, *datetime)),
{
    match localize(tz, datetime) {
        Some(e) => Ok(decimal_text(e as i128)),
        None => Err(String::from_str(INVALID_ARG)),
    }
}

/// The epoch text of `time` on `today`, read as wall-clock time in `tz`.
fn time_to_epoch(time: &CivilTime, today: &CivilDate, tz: &Tz) -> (r: Result<String, String>)
    ensures
        text_result(r) == instant_text(local_instant(*tz, at_time(*today, *time))),
{
    let datetime = CivilDateTime { date: *today, time: *time };
    datetime_to_epoch(&datetime, tz)
}

/// The epoch text of the midnight that starts `date`, read as wall-clock time in `tz`.
fn date_to_epoch(date: &CivilDate, tz: &Tz) -> (r: Result<String, String>)
    ensures
        text_result(r) == instant_text(local_instant(*tz, at_time(*date, midnight()))),
{
    datetime_to_epoch(&date.at_midnight(), tz)
}

/// Tries one candidate on `arg`: `None` where it does not read it, else the epoch
/// text of what it reads.
fn try_candidate(c: &Candidate, arg: &str, tz: &Tz, today: &CivilDate) -> (r: Option<
    Result<String, String>,
>)
    ensures
        r is Some <==> reads(c@, arg@),
        r matches Some(res) ==> text_result(res) == instant_text(
            local_instant(*tz, reading(c@, arg@, *today)),
        ),
{
    match c.kind {
        PatternKind::DateTime => match parse_datetime(arg, c.pattern.as_str()) {
            Some(datetime) => Some(datetime_to_epoch(&datetime, tz)),
            None => None,
        },
        PatternKind::Time => match parse_time(arg, c.pattern.as_str()) {
            Some(time) => Some(time_to_epoch(&time, today, tz)),
            None => None,
        },
        PatternKind::Date => match parse_date(arg, c.pattern.as_str()) {
            Some(date) => Some(date_to_epoch(&date, tz)),
            None => None,
        },
    }
}

/// Resolves `arg` against a given clock reading: the first of the caller's custom
/// tokens, the time patterns, the date patterns, the date-then-time and the
/// time-then-date compositions that reads it, localized in `tz`; else a relative
/// keyword; else `INVALID_ARG`.
pub fn resolve_arg(arg: &str, tz: &Tz, custom_tokens: &Vec<String>, clock: &Clock) -> (r: Result<
    String,
    String,
>)
    ensures
        text_result(r) == resolve(arg@, *tz, texts(custom_tokens@), *clock),
{
    let cands = candidate_patterns(custom_tokens);
    let ghost cs = cands@.map_values(|c: Candidate| c@);
    let mut i: usize = 0;
    while i < cands.len()
        invariant
            i <= cands.len(),
            cs == cands@.map_values(|c: Candidate| c@),
            cs == candidates(texts(custom_tokens@)),
            first_reader(cs, arg@, 0) == first_reader(cs, arg@, i as int),
        decreases cands.len() - i,
    {
        assert(cs[i as int] == cands@[i as int]@);
        if let Some(res) = try_candidate(&cands[i], arg, tz, &clock.today) {
            return res;
        }
        i = i + 1;
    }
    resolve_keyword(arg, clock)
}

/// The relative keywords, against the clock reading: `yesterday`, `now`, `tomorrow`.
fn resolve_keyword(arg: &str, clock: &Clock) -> (r: Result<String, String>)
    ensures
        text_result(r) == match keyword_instant(arg@, clock.now as int) {
            Some(e) => Ok(decimal(e)),
            None => Err(INVALID_ARG@),
        },
{
    if same_text(arg, "yesterday") {
        Ok(decimal_text(clock.now as i128 - SECONDS_PER_DAY as i128))
    } else if same_text(arg, "now") {
        Ok(decimal_text(clock.now as i128))
    } else if same_text(arg, "tomorrow") {
        Ok(decimal_text(clock.now as i128 + SECONDS_PER_DAY as i128))
    } else {
        Err(String::from_str(INVALID_ARG))
    }
}

/// Reads `arg` as a date, a time, a date and time, or a relative keyword, as
/// `resolve_arg` does, against the clock as it reads now; returns the epoch seconds
/// as text.
pub fn parse_arg(arg: &str, tz: &Tz, custom_tokens: &Vec<String>) -> (r: Result<String, String>)
    ensures
        exists|clock: Clock| text_result(r) == resolve(arg@, *tz, texts(custom_tokens@), clock),
        forall|clock: Clock|
            !needs_clock(arg@, texts(custom_tokens@)) ==> text_result(r) == resolve(
                arg@,
                *tz,
                texts(custom_tokens@),
                clock,
            ),
{
    let clock = read_clock();
    let r = resolve_arg(arg, tz, custom_tokens, &clock);
    proof {
        lemma_resolve_without_clock(arg@, *tz, texts(custom_tokens@), clock);
    }
    r
}

/// Resolving a text that needs no clock gives the same result against every reading.
pub proof fn lemma_resolve_without_clock(arg: Seq<char>, tz: Tz, custom_tokens: Seq<Seq<char>>, clock: Clock)
    ensures
        forall|other: Clock|
            !needs_clock(arg, custom_tokens) ==> resolve(arg, tz, custom_tokens, other) == resolve(
                arg,
                tz,
                custom_tokens,
                clock,
            ),
{
}

/// Whether `epoch` is taken to count milliseconds.
pub fn is_probably_millis(epoch: i64) -> (r: bool)
    ensures
        r == looks_like_millis(epoch as int),
{
    epoch > PROBABLY_MILLIS_BOUND || epoch < -PROBABLY_MILLIS_BOUND
}

/// Renders `epoch` as wall-clock time in `tz`, in the template `MM-DD-YYYY HH:MM:SS`.
/// An epoch whose magnitude exceeds `PROBABLY_MILLIS_BOUND` is read as milliseconds.
pub fn epoch_to_datetime(epoch: i64, tz: &Tz) -> (r: Result<String, String>)
    ensures
        text_result(r) == epoch_text(epoch as int, *tz),
{
    let seconds: i64 = if epoch > PROBABLY_MILLIS_BOUND {
        epoch / 1000
    } else if epoch < -PROBABLY_MILLIS_BOUND {
        let magnitude: i128 = -(epoch as i128);
        (-(magnitude / 1000)) as i64
    } else {
        epoch
    };
    match wall_clock_at(tz, seconds) {
        Some(d) => Ok(d.render()),
        None => Err(String::from_str(EPOCH_OUT_OF_RANGE)),
    }
}

/// The notice that an epoch was read as milliseconds.
pub const MILLIS_NOTICE: &'static str = "Parsing epoch time as milliseconds.";

/// What a command-line token converts to: an integer is an epoch, rendered in `tz`;
/// any other text is resolved to epoch seconds.
pub open spec fn conversion(arg: Seq<char>, tz: Tz, custom_tokens: Seq<Seq<char>>, clock: Clock) -> Result<
    Seq<char>,
    Seq<char>,
> {
    match i64_value(arg) {
        Some(epoch) => epoch_text(epoch as int, tz),
        None => resolve(arg, tz, custom_tokens, clock),
    }
}

/// The lines reported for a token: the milliseconds notice where it applies, then
/// `<token> => <result>`, or `Unable to parse value: <token>` on failure.
pub open spec fn report_lines(arg: Seq<char>, tz: Tz, custom_tokens: Seq<Seq<char>>, clock: Clock) -> Seq<
    Seq<char>,
> {
    let notice = match i64_value(arg) {
        Some(epoch) => if looks_like_millis(epoch as int) {
            seq![MILLIS_NOTICE@]
        } else {
            Seq::empty()
        },
        None => Seq::empty(),
    };
    notice.push(
        match conversion(arg, tz, custom_tokens, clock) {
            Ok(t) => arg + " => "@ + t,
            Err(_) => "Unable to parse value: "@ + arg,
        },
    )
}

/// The lines to report for one command-line token, against a given clock reading.
pub fn describe_token_at(arg: &str, tz: &Tz, custom_tokens: &Vec<String>, clock: &Clock) -> (r: Vec<
    String,
>)
    ensures
        texts(r@) == report_lines(arg@, *tz, texts(custom_tokens@), *clock),
{
    let mut lines: Vec<String> = Vec::new();
    let converted = match parse_i64(arg) {
        Some(epoch) => {
            if is_probably_millis(epoch) {
                lines.push(String::from_str(MILLIS_NOTICE));
            }
            epoch_to_datetime(epoch, tz)
        },
        None => resolve_arg(arg, tz, custom_tokens, clock),
    };
    let line = match converted {
        Ok(t) => String::from_str(arg).concat(" => ").concat(t.as_str()),
        Err(_) => String::from_str("Unable to parse value: ").concat(arg),
    };
    let ghost notice = texts(lines@);
    lines.push(line);
    assert(texts(lines@) =~= notice.push(line@));
    assert(texts(lines@) =~= report_lines(arg@, *tz, texts(custom_tokens@), *clock));
    lines
}

/// The lines to report for one command-line token, against the clock as it reads now.
pub fn describe_token(arg: &str, tz: &Tz, custom_tokens: &Vec<String>) -> (r: Vec<String>)
    ensures
        exists|clock: Clock| texts(r@) == report_lines(arg@, *tz, texts(custom_tokens@), clock),
{
    let clock = read_clock();
    describe_token_at(arg, tz, custom_tokens, &clock)
}

} // verus!
