//! The stored preferences (a default zone and custom tokens), and the commands that
//! read and change them. Loading and storing are the caller's: each command takes the
//! loaded configuration and says what to store and what to report.
use vstd::prelude::*;
use vstd::string::*;

use chrono_tz::Tz;

use crate::chrono_api::{name_of_zone, parse_zone, utc_zone, zone_name, zone_named};
use crate::patterns::texts;

verus! {

/// The stored preferences.
pub struct MyConfig {
    pub default_timezone: Option<String>,
    pub custom_parsing_tokens: Option<Vec<String>>,
}

impl Default for MyConfig {
    fn default() -> (r: Self)
        ensures
            r.default_timezone is None,
            r.custom_parsing_tokens is None,
    {
        MyConfig { default_timezone: None, custom_parsing_tokens: None }
    }
}

impl MyConfig {
    /// The stored zone name, if any.
    pub open spec fn timezone_text(&self) -> Option<Seq<char>> {
        match self.default_timezone {
            Some(s) => Some(s@),
            None => None,
        }
    }

    /// The stored custom tokens, if any.
    pub open spec fn token_texts(&self) -> Option<Seq<Seq<char>>> {
        match self.custom_parsing_tokens {
            Some(v) => Some(texts(v@)),
            None => None,
        }
    }
}

/// A configuration to store, and what to report once it is stored or if storing fails.
pub struct ConfigUpdate {
    pub config: MyConfig,
    pub done: String,
    pub failure: String,
}

/// What a configuration command comes to: a report with nothing to store, or an update.
pub enum CommandOutcome {
    Report(String),
    Store(ConfigUpdate),
}

/// The custom tokens stored in `config`; none where there are none.
pub fn get_custom_tokens(config: MyConfig) -> (r: Vec<String>)
    ensures
        texts(r@) == match config.token_texts() {
            Some(t) => t,
            None => Seq::empty(),
        },
{
    match config.custom_parsing_tokens {
        Some(tokens) => tokens,
        None => {
            let r: Vec<String> = Vec::new();
            assert(texts(r@) =~= Seq::empty());
            r
        },
    }
}

/// The lines of `lines` joined by line breaks.
pub open spec fn joined_lines(lines: Seq<Seq<char>>) -> Seq<char>
    decreases lines.len(),
{
    if lines.len() == 0 {
        Seq::empty()
    } else if lines.len() == 1 {
        lines[0]
    } else {
        joined_lines(lines.drop_last()) + seq!['\n'] + lines.last()
    }
}

/// The heading of the token listing.
pub const TOKENS_HEADING: &'static str = "Custom datetime tokens:";

/// The failure of a listing with no tokens stored.
pub const NO_TOKENS: &'static str = "No custom tokens exist!";

/// The stored custom tokens, one per line under a heading; an error where none are
/// stored.
pub fn view_tokens(config: MyConfig) -> (r: Result<Option<String>, String>)
    ensures
        match config.token_texts() {
            Some(t) => r matches Ok(Some(s)) && s@ == joined_lines(seq![TOKENS_HEADING@] + t),
            None => r matches Err(e) && e@ == NO_TOKENS@,
        },
{
    let tokens = match config.custom_parsing_tokens {
        Some(tokens) => tokens,
        None => return Err(String::from_str(NO_TOKENS)),
    };
    let ghost all = seq![TOKENS_HEADING@] + texts(tokens@);
    let mut listing = String::from_str(TOKENS_HEADING);
    let mut i: usize = 0;
    assert(all.take(1) =~= seq![TOKENS_HEADING@]);
    while i < tokens.len()
        invariant
            i <= tokens.len(),
            all == seq![TOKENS_HEADING@] + texts(tokens@),
            listing@ == joined_lines(all.take(i + 1)),
        decreases tokens.len() - i,
    {
        proof {
            reveal_strlit("\n");
            assert("\n"@ =~= seq!['\n']);
        }
        listing.append("\n");
        listing.append(tokens[i].as_str());
        assert(all.take(i + 2).drop_last() =~= all.take(i + 1));
        assert(listing@ =~= joined_lines(all.take(i + 2)));
        i = i + 1;
    }
    assert(all.take(i + 1) =~= all);
    Ok(Some(listing))
}

/// The report of a token added.
pub const TOKEN_ADDED: &'static str = "Custom Token successfully added.";

/// The report of a failure to store an added token.
pub const TOKEN_NOT_STORED: &'static str = "Error storing custom token";

/// The failure of `add-token` with no token given.
pub const MISSING_TOKEN_TO_ADD: &'static str = "Must provide timezone argument.";

/// Adds `new_token` after the stored custom tokens.
pub fn add_custom_token(config: MyConfig, new_token: Option<String>) -> (r: Result<
    CommandOutcome,
    String,
>)
    ensures
        match new_token {
            None => r matches Err(e) && e@ == MISSING_TOKEN_TO_ADD@,
            Some(t) => r matches Ok(CommandOutcome::Store(u)) && u.config.token_texts() == Some(
                match config.token_texts() {
                    Some(ts) => ts,
                    None => Seq::empty(),
                }.push(t@),
            ) && u.config.timezone_text() == config.timezone_text() && u.done@ == TOKEN_ADDED@
                && u.failure@ == TOKEN_NOT_STORED@,
        },
{
    let token = match new_token {
        Some(t) => t,
        None => return Err(String::from_str(MISSING_TOKEN_TO_ADD)),
    };
    let ghost token_view = token@;
    let mut tokens = match config.custom_parsing_tokens {
        Some(tokens) => tokens,
        None => Vec::new(),
    };
    let ghost before = texts(tokens@);
    tokens.push(token);
    assert(texts(tokens@) =~= before.push(token_view));
    Ok(
        CommandOutcome::Store(
            ConfigUpdate {
                config: MyConfig {
                    default_timezone: config.default_timezone,
                    custom_parsing_tokens: Some(tokens),
                },
                done: String::from_str(TOKEN_ADDED),
                failure: String::from_str(TOKEN_NOT_STORED),
            },
        ),
    )
}

/// The report of a removal with no tokens stored.
pub const NO_TOKENS_TO_REMOVE: &'static str = "No tokens to remove.";

/// The report of a removal that would leave no token.
pub const NO_MATCHING_TOKEN: &'static str = "No matching token found.";

/// The report of a token removed.
pub const TOKEN_REMOVED: &'static str = "Custom token removed.";

/// The report of a failure to store the remaining tokens.
pub const TOKEN_NOT_REMOVED: &'static str = "Error removing custom token";

/// The failure of `remove-token` with no token given.
pub const MISSING_TOKEN_TO_REMOVE: &'static str = "Must provide token to remove.";

/// Removes every stored custom token equal to `to_remove`. Nothing is stored where no
/// tokens are stored, or where none would remain.
pub fn remove_custom_token(config: MyConfig, to_remove: Option<String>) -> (r: Result<
    CommandOutcome,
    String,
>)
    ensures
        to_remove is None ==> (r matches Err(e) && e@ == MISSING_TOKEN_TO_REMOVE@),
        to_remove is Some && config.token_texts() is None ==> (r matches Ok(
            CommandOutcome::Report(m),
        ) && m@ == NO_TOKENS_TO_REMOVE@),
        match (to_remove, config.token_texts()) {
            (Some(t), Some(ts)) => {
                let kept = ts.filter(|x: Seq<char>| x != t@);
                if kept.len() == 0 {
                    r matches Ok(CommandOutcome::Report(m)) && m@ == NO_MATCHING_TOKEN@
                } else {
                    r matches Ok(CommandOutcome::Store(u)) && u.config.token_texts() == Some(kept)
                        && u.config.timezone_text() == config.timezone_text() && u.done@
                        == TOKEN_REMOVED@ && u.failure@ == TOKEN_NOT_REMOVED@
                }
            },
            _ => true,
        },
{
    let token = match to_remove {
        Some(t) => t,
        None => return Err(String::from_str(MISSING_TOKEN_TO_REMOVE)),
    };
    let existing = match config.custom_parsing_tokens {
        Some(tokens) => tokens,
        None => return Ok(CommandOutcome::Report(String::from_str(NO_TOKENS_TO_REMOVE))),
    };
    let ghost keep = |x: Seq<char>| x != token@;
    let ghost target = token@;
    let mut kept: Vec<String> = Vec::new();
    let mut i: usize = 0;
    proof {
        reveal(Seq::filter);
        assert(texts(kept@) =~= texts(existing@).take(0).filter(keep));
    }
    while i < existing.len()
        invariant
            i <= existing.len(),
            keep == (|x: Seq<char>| x != target),
            target == token@,
            texts(kept@) == texts(existing@).take(i as int).filter(keep),
        decreases existing.len() - i,
    {
        proof {
            reveal(Seq::filter);
        }
        let ghost prefix = texts(existing@).take(i + 1);
        assert(prefix.drop_last() =~= texts(existing@).take(i as int));
        assert(prefix.last() == existing@[i as int]@);
        assert(prefix.filter(keep) == if keep(prefix.last()) {
            prefix.drop_last().filter(keep).push(prefix.last())
        } else {
            prefix.drop_last().filter(keep)
        });
        if !(existing[i] == token) {
            let ghost prev = kept@;
            kept.push(existing[i].clone());
            assert(texts(kept@) =~= texts(prev).push(existing@[i as int]@));
        }
        i = i + 1;
    }
    assert(texts(existing@).take(i as int) =~= texts(existing@));
    if kept.len() == 0 {
        return Ok(CommandOutcome::Report(String::from_str(NO_MATCHING_TOKEN)));
    }
    Ok(
        CommandOutcome::Store(
            ConfigUpdate {
                config: MyConfig {
                    default_timezone: config.default_timezone,
                    custom_parsing_tokens: Some(kept),
                },
                done: String::from_str(TOKEN_REMOVED),
                failure: String::from_str(TOKEN_NOT_REMOVED),
            },
        ),
    )
}

/// The report of a failure to store the zone.
pub const ZONE_NOT_STORED: &'static str = "Error storing timezone";

/// The report of the zone cleared.
pub const ZONE_CLEARED: &'static str = "Timezone cleared.";

/// The failure of `set-tz` with no zone given.
pub const MISSING_TIMEZONE: &'static str = "Must provide timezone argument.";

/// The failure of `set-tz` with a name that names no zone.
pub const INVALID_TIMEZONE: &'static str = "Invalid timezone provided.";

/// Stores the zone that `tz_input` names as the default zone.
pub fn set_tz_config(config: MyConfig, tz_input: Option<String>) -> (r: Result<
    CommandOutcome,
    String,
>)
    ensures
        tz_input is None ==> (r matches Err(e) && e@ == MISSING_TIMEZONE@),
        tz_input matches Some(name) ==> match zone_named(name@) {
            None => r matches Err(e) && e@ == INVALID_TIMEZONE@,
            Some(tz) => r matches Ok(CommandOutcome::Store(u)) && u.config.timezone_text() == Some(
                zone_name(tz),
            ) && u.config.token_texts() == config.token_texts() && u.done@ == "Timezone updated to "@
                + zone_name(tz) && u.failure@ == ZONE_NOT_STORED@,
        },
{
    let name = match tz_input {
        Some(name) => name,
        None => return Err(String::from_str(MISSING_TIMEZONE)),
    };
    let timezone = match parse_zone(name.as_str()) {
        Some(tz) => tz,
        None => return Err(String::from_str(INVALID_TIMEZONE)),
    };
    let canonical = name_of_zone(&timezone);
    let done = String::from_str("Timezone updated to ").concat(canonical.as_str());
    Ok(
        CommandOutcome::Store(
            ConfigUpdate {
                config: MyConfig {
                    default_timezone: Some(canonical),
                    custom_parsing_tokens: config.custom_parsing_tokens,
                },
                done,
                failure: String::from_str(ZONE_NOT_STORED),
            },
        ),
    )
}

/// Clears the default zone.
pub fn clear_tz_config(config: MyConfig) -> (r: CommandOutcome)
    ensures
        r matches CommandOutcome::Store(u) && u.config.timezone_text() is None
            && u.config.token_texts() == config.token_texts() && u.done@ == ZONE_CLEARED@
            && u.failure@ == ZONE_NOT_STORED@,
{
    CommandOutcome::Store(
        ConfigUpdate {
            config: MyConfig {
                default_timezone: None,
                custom_parsing_tokens: config.custom_parsing_tokens,
            },
            done: String::from_str(ZONE_CLEARED),
            failure: String::from_str(ZONE_NOT_STORED),
        },
    )
}

/// The failure of an override that names no zone.
pub const INVALID_ENV_TIMEZONE: &'static str = "Unable to parse TIMEZONE env variable.";

/// The zone that an override names, if one is set; an error where it names none.
pub fn get_env_timezone(env_value: Option<String>) -> (r: Result<Option<Tz>, String>)
    ensures
        match env_value {
            None => r == Ok::<Option<Tz>, String>(None),
            Some(v) => match zone_named(v@) {
                Some(tz) => r == Ok::<Option<Tz>, String>(Some(tz)),
                None => r matches Err(e) && e@ == INVALID_ENV_TIMEZONE@,
            },
        },
{
    match env_value {
        None => Ok(None),
        Some(v) => match parse_zone(v.as_str()) {
            Some(tz) => Ok(Some(tz)),
            None => Err(String::from_str(INVALID_ENV_TIMEZONE)),
        },
    }
}

/// The zone to work in: the override `env_value` where it is set (an error where it
/// names no zone); else the stored default where it names a zone; else UTC.
pub fn get_timezone(env_value: Option<String>, config: &MyConfig) -> (r: Result<Tz, String>)
    ensures
        env_value matches Some(v) ==> match zone_named(v@) {
            Some(tz) => r == Ok::<Tz, String>(tz),
            None => r matches Err(e) && e@ == INVALID_ENV_TIMEZONE@,
        },
        env_value is None ==> (r matches Ok(tz) && match config.timezone_text() {
            Some(name) if zone_named(name) is Some => zone_named(name) == Some(tz),
            _ => zone_named("UTC"@) == Some(tz),
        }),
{
    match get_env_timezone(env_value) {
        Err(e) => return Err(e),
        Ok(Some(tz)) => return Ok(tz),
        Ok(None) => {},
    }
    match &config.default_timezone {
        Some(name) => match parse_zone(name.as_str()) {
            Some(tz) => Ok(tz),
            None => Ok(utc_zone()),
        },
        None => Ok(utc_zone()),
    }
}

} // verus!
