//! The registry of recognised shapes: date patterns, time patterns, their
//! compositions, and the order in which the resolver tries them.
use vstd::prelude::*;
use vstd::string::*;

verus! {

/// What a pattern reads: a full date and time, a time of day alone, or a date alone.
#[derive(Clone, Copy, Debug, PartialEq, Eq, Structural)]
pub enum PatternKind {
    DateTime,
    Time,
    Date,
}

/// A strftime pattern together with what it reads.
pub struct Candidate {
    pub kind: PatternKind,
    pub pattern: String,
}

impl View for Candidate {
    type V = (PatternKind, Seq<char>);

    open spec fn view(&self) -> (PatternKind, Seq<char>) {
        (self.kind, self.pattern@)
    }
}

/// The characters of each text.
pub open spec fn texts(v: Seq<String>) -> Seq<Seq<char>> {
    v.map_values(|s: String| s@)
}

/// The date patterns, in the order they are tried. A pattern with a two-digit year
/// comes first: chrono's four-digit year field would also take a two-digit year.
pub open spec fn date_pattern_list() -> Seq<Seq<char>> {
    seq!["%m-%d-%y"@, "%m-%d-%Y"@, "%D"@, "%m/%d/%Y"@, "%F"@, "%v"@]
}

/// The time patterns, in the order they are tried: without seconds, then with them;
/// at each precision the 12-hour patterns, with their meridiem, before the more
/// permissive 24-hour one.
pub open spec fn time_pattern_list() -> Seq<Seq<char>> {
    seq![
        "%I:%M %P"@,
        "%I:%M %p"@,
        "%l:%M %P"@,
        "%l:%M %p"@,
        "%H:%M"@,
        "%I:%M:%S %P"@,
        "%I:%M:%S %p"@,
        "%l:%M:%S %P"@,
        "%l:%M:%S %p"@,
        "%H:%M:%S"@,
    ]
}

/// A pattern that reads `first`, one space, then `second`.
pub open spec fn joined(first: Seq<char>, second: Seq<char>) -> Seq<char> {
    first + seq![' '] + second
}

/// Every pair of a pattern of `firsts` and one of `seconds`, joined, with the first
/// pattern varying slowest.
pub open spec fn compositions(firsts: Seq<Seq<char>>, seconds: Seq<Seq<char>>) -> Seq<Seq<char>>
    decreases firsts.len(),
{
    if firsts.len() == 0 {
        Seq::empty()
    } else {
        compositions(firsts.drop_last(), seconds) + seconds.map_values(
            |b: Seq<char>| joined(firsts.last(), b),
        )
    }
}

/// Each pattern of `pats`, tagged with `kind`.
pub open spec fn tagged(kind: PatternKind, pats: Seq<Seq<char>>) -> Seq<(PatternKind, Seq<char>)> {
    pats.map_values(|p: Seq<char>| (kind, p))
}

/// Every pattern the resolver tries, in its order of priority: the caller's custom
/// tokens, the time patterns, the date patterns, each date then a time, each time
/// then a date.
pub open spec fn candidates(custom_tokens: Seq<Seq<char>>) -> Seq<(PatternKind, Seq<char>)> {
    tagged(PatternKind::DateTime, custom_tokens) + tagged(PatternKind::Time, time_pattern_list())
        + tagged(PatternKind::Date, date_pattern_list()) + tagged(
        PatternKind::DateTime,
        compositions(date_pattern_list(), time_pattern_list()),
    ) + tagged(PatternKind::DateTime, compositions(time_pattern_list(), date_pattern_list()))
}

/// The date patterns, in the order they are tried.
pub fn date_patterns() -> (r: Vec<String>)
    ensures
        texts(r@) == date_pattern_list(),
{
    let r = vec![
        String::from_str("%m-%d-%y"),
        String::from_str("%m-%d-%Y"),
        String::from_str("%D"),
        String::from_str("%m/%d/%Y"),
        String::from_str("%F"),
        String::from_str("%v"),
    ];
    assert(texts(r@) =~= date_pattern_list());
    r
}

/// The time patterns, in the order they are tried.
pub fn time_patterns() -> (r: Vec<String>)
    ensures
        texts(r@) == time_pattern_list(),
{
    let r = vec![
        String::from_str("%I:%M %P"),
        String::from_str("%I:%M %p"),
        String::from_str("%l:%M %P"),
        String::from_str("%l:%M %p"),
        String::from_str("%H:%M"),
        String::from_str("%I:%M:%S %P"),
        String::from_str("%I:%M:%S %p"),
        String::from_str("%l:%M:%S %P"),
        String::from_str("%l:%M:%S %p"),
        String::from_str("%H:%M:%S"),
    ];
    assert(texts(r@) =~= time_pattern_list());
    r
}

/// Every pattern of `firsts` followed by a space and a pattern of `seconds`.
pub fn composed(firsts: &Vec<String>, seconds: &Vec<String>) -> (r: Vec<String>)
    ensures
        texts(r@) == compositions(texts(firsts@), texts(seconds@)),
{
    let mut r: Vec<String> = Vec::new();
    let mut i: usize = 0;
    while i < firsts.len()
        invariant
            i <= firsts.len(),
            texts(r@) == compositions(texts(firsts@).take(i as int), texts(seconds@)),
        decreases firsts.len() - i,
    {
        let ghost before = texts(r@);
        let mut j: usize = 0;
        while j < seconds.len()
            invariant
                i < firsts.len(),
                j <= seconds.len(),
                texts(r@) == before + texts(seconds@).take(j as int).map_values(
                    |b: Seq<char>| joined(firsts@[i as int]@, b),
                ),
            decreases seconds.len() - j,
        {
            proof {
                reveal_strlit(" ");
                assert(" "@ =~= seq![' ']);
            }
            let mut pattern = firsts[i].clone();
            pattern.append(" ");
            pattern.append(seconds[j].as_str());
            assert(pattern@ =~= joined(firsts@[i as int]@, seconds@[j as int]@));
            let ghost prev = r@;
            r.push(pattern);
            assert(texts(r@) =~= texts(prev).push(joined(firsts@[i as int]@, seconds@[j as int]@)));
            assert(texts(seconds@).take(j + 1) =~= texts(seconds@).take(j as int).push(
                seconds@[j as int]@,
            ));
            assert(texts(r@) =~= before + texts(seconds@).take(j + 1).map_values(
                |b: Seq<char>| joined(firsts@[i as int]@, b),
            ));
            j = j + 1;
        }
        proof {
            let prefix = texts(firsts@).take(i + 1);
            assert(prefix.drop_last() =~= texts(firsts@).take(i as int));
            assert(texts(seconds@).take(j as int) =~= texts(seconds@));
        }
        i = i + 1;
    }
    assert(texts(firsts@).take(i as int) =~= texts(firsts@));
    r
}

/// Appends each pattern of `pats` to `r`, tagged with `kind`.
fn push_tagged(r: &mut Vec<Candidate>, kind: PatternKind, pats: &Vec<String>)
    ensures
        final(r)@.map_values(|c: Candidate| c@) == old(r)@.map_values(|c: Candidate| c@)
            + tagged(kind, texts(pats@)),
{
    let ghost start = r@.map_values(|c: Candidate| c@);
    let mut i: usize = 0;
    while i < pats.len()
        invariant
            i <= pats.len(),
            start == old(r)@.map_values(|c: Candidate| c@),
            r@.map_values(|c: Candidate| c@) == start + tagged(kind, texts(pats@).take(i as int)),
        decreases pats.len() - i,
    {
        let ghost prev = r@;
        r.push(Candidate { kind, pattern: pats[i].clone() });
        assert(r@.map_values(|c: Candidate| c@) =~= prev.map_values(|c: Candidate| c@).push(
            (kind, pats@[i as int]@),
        ));
        assert(texts(pats@).take(i + 1) =~= texts(pats@).take(i as int).push(pats@[i as int]@));
        assert(r@.map_values(|c: Candidate| c@) =~= start + tagged(kind, texts(pats@).take(i + 1)));
        i = i + 1;
    }
    assert(texts(pats@).take(i as int) =~= texts(pats@));
}

/// Every pattern the resolver tries, in its order of priority.
pub fn candidate_patterns(custom_tokens: &Vec<String>) -> (r: Vec<Candidate>)
    ensures
        r@.map_values(|c: Candidate| c@) == candidates(texts(custom_tokens@)),
{
    let dates = date_patterns();
    let times = time_patterns();
    let mut r: Vec<Candidate> = Vec::new();
    assert(r@.map_values(|c: Candidate| c@) =~= Seq::empty());
    push_tagged(&mut r, PatternKind::DateTime, custom_tokens);
    push_tagged(&mut r, PatternKind::Time, &times);
    push_tagged(&mut r, PatternKind::Date, &dates);
    let date_times = composed(&dates, &times);
    push_tagged(&mut r, PatternKind::DateTime, &date_times);
    let time_dates = composed(&times, &dates);
    push_tagged(&mut r, PatternKind::DateTime, &time_dates);
    assert(r@.map_values(|c: Candidate| c@) =~= candidates(texts(custom_tokens@)));
    r
}

} // verus!
