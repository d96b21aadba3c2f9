//! Laws that relate the engine's functions, proved over their models.
use vstd::prelude::*;

use chrono_tz::Tz;

use crate::chrono_api::{local_instant, parsed_datetime};
use crate::civil::Clock;
use crate::datetime_parsing::{
    epoch_seconds, epoch_text, first_reader, instant_text, looks_like_millis, reads, resolve,
    SECONDS_PER_DAY,
};
use crate::patterns::{candidates, tagged, PatternKind};
use crate::text::decimal;

verus! {

/// Where the candidate at `i` is the first from `k` on that reads `arg`, the search
/// from `k` finds it.
proof fn lemma_first_reader_at(cands: Seq<(PatternKind, Seq<char>)>, arg: Seq<char>, k: int, i: int)
    requires
        0 <= k <= i < cands.len(),
        reads(cands[i], arg),
        forall|j: int| k <= j < i ==> !reads(#[trigger] cands[j], arg),
    ensures
        first_reader(cands, arg, k) == Some(cands[i]),
    decreases i - k,
{
    if k < i {
        lemma_first_reader_at(cands, arg, k + 1, i);
    }
}

/// Custom tokens come first: where the custom token at `i` is the first that reads
/// `arg` as a date and time, `arg` resolves to what that token reads, whatever the
/// built-in patterns would make of it.
pub proof fn lemma_custom_tokens_take_priority(
    arg: Seq<char>,
    tz: Tz,
    custom_tokens: Seq<Seq<char>>,
    clock: Clock,
    i: int,
)
    requires
        0 <= i < custom_tokens.len(),
        parsed_datetime(arg, custom_tokens[i]) is Some,
        forall|j: int| 0 <= j < i ==> parsed_datetime(arg, #[trigger] custom_tokens[j]) is None,
    ensures
        resolve(arg, tz, custom_tokens, clock) == instant_text(
            local_instant(tz, parsed_datetime(arg, custom_tokens[i]).unwrap()),
        ),
{
    let cands = candidates(custom_tokens);
    let prefix = tagged(PatternKind::DateTime, custom_tokens);
    assert(forall|j: int| 0 <= j < custom_tokens.len() ==> cands[j] == prefix[j]);
    assert(cands[i] == (PatternKind::DateTime, custom_tokens[i]));
    assert forall|j: int| 0 <= j < i implies !reads(#[trigger] cands[j], arg) by {
        assert(cands[j] == (PatternKind::DateTime, custom_tokens[j]));
    }
    lemma_first_reader_at(cands, arg, 0, i);
}

/// An epoch read as milliseconds renders as the seconds it stands for: the same text
/// as the epoch divided by 1000 (rounding toward zero), wherever that quotient is
/// itself read as seconds.
pub proof fn lemma_millis_render_as_seconds(epoch: int, tz: Tz)
    requires
        i64::MIN <= epoch <= i64::MAX,
        looks_like_millis(epoch),
        !looks_like_millis(epoch_seconds(epoch)),
    ensures
        epoch_text(epoch, tz) == epoch_text(epoch_seconds(epoch), tz),
{
}

/// Against one clock reading, `yesterday` and `tomorrow` resolve to one day before
/// and one day after what `now` resolves to, wherever no pattern reads these words.
pub proof fn lemma_keywords_one_day_apart(tz: Tz, custom_tokens: Seq<Seq<char>>, clock: Clock)
    requires
        first_reader(candidates(custom_tokens), "yesterday"@, 0) is None,
        first_reader(candidates(custom_tokens), "now"@, 0) is None,
        first_reader(candidates(custom_tokens), "tomorrow"@, 0) is None,
    ensures
        resolve("now"@, tz, custom_tokens, clock) == Ok::<Seq<char>, Seq<char>>(
            decimal(clock.now as int),
        ),
        resolve("yesterday"@, tz, custom_tokens, clock) == Ok::<Seq<char>, Seq<char>>(
            decimal(clock.now - SECONDS_PER_DAY),
        ),
        resolve("tomorrow"@, tz, custom_tokens, clock) == Ok::<Seq<char>, Seq<char>>(
            decimal(clock.now + SECONDS_PER_DAY),
        ),
{
    reveal_strlit("yesterday");
    reveal_strlit("now");
    reveal_strlit("tomorrow");
    assert("now"@.len() != "yesterday"@.len());
    assert("tomorrow"@ != "yesterday"@) by {
        assert("tomorrow"@[0] != "yesterday"@[0]);
    }
    assert("now"@ != "tomorrow"@);
}

} // verus!
