use chrono_tz::US::Central;
use chrono_tz::UTC;
use rti::config::{
    add_custom_token, clear_tz_config, get_custom_tokens, get_env_timezone, get_timezone,
    remove_custom_token, set_tz_config, view_tokens, CommandOutcome, MyConfig,
};

fn config(tz: Option<&str>, tokens: Option<&[&str]>) -> MyConfig {
    MyConfig {
        default_timezone: tz.map(|s| s.to_string()),
        custom_parsing_tokens: tokens.map(|ts| ts.iter().map(|t| t.to_string()).collect()),
    }
}

fn stored(outcome: CommandOutcome) -> (MyConfig, String) {
    match outcome {
        CommandOutcome::Store(u) => (u.config, u.done),
        CommandOutcome::Report(m) => panic!("nothing stored: {}", m),
    }
}

fn reported(outcome: CommandOutcome) -> String {
    match outcome {
        CommandOutcome::Report(m) => m,
        CommandOutcome::Store(u) => panic!("stored: {}", u.done),
    }
}

#[test]
fn default_config_is_empty() {
    let c = MyConfig::default();
    assert_eq!(c.default_timezone, None);
    assert_eq!(c.custom_parsing_tokens, None);
}

#[test]
fn tokens_of_a_config() {
    assert!(get_custom_tokens(config(None, None)).is_empty());
    assert_eq!(
        get_custom_tokens(config(None, Some(&["%d-%m-%y %H:%M"]))),
        vec!["%d-%m-%y %H:%M".to_string()]
    );
}

#[test]
fn listing_tokens() {
    assert_eq!(
        view_tokens(config(None, Some(&["%d-%m-%y", "%H.%M"]))),
        Ok(Some("Custom datetime tokens:\n%d-%m-%y\n%H.%M".to_string()))
    );
    assert_eq!(
        view_tokens(config(None, None)),
        Err("No custom tokens exist!".to_string())
    );
}

#[test]
fn adding_a_token() {
    let (c, done) = stored(add_custom_token(config(Some("UTC"), Some(&["a"])), Some("b".to_string())).unwrap());
    assert_eq!(c.custom_parsing_tokens, Some(vec!["a".to_string(), "b".to_string()]));
    assert_eq!(c.default_timezone, Some("UTC".to_string()));
    assert_eq!(done, "Custom Token successfully added.");
    let (c, _) = stored(add_custom_token(config(None, None), Some("b".to_string())).unwrap());
    assert_eq!(c.custom_parsing_tokens, Some(vec!["b".to_string()]));
    assert!(add_custom_token(config(None, None), None).is_err());
}

#[test]
fn removing_a_token() {
    let (c, done) = stored(
        remove_custom_token(config(None, Some(&["a", "b", "a"])), Some("a".to_string())).unwrap(),
    );
    assert_eq!(c.custom_parsing_tokens, Some(vec!["b".to_string()]));
    assert_eq!(done, "Custom token removed.");
    assert_eq!(
        reported(remove_custom_token(config(None, None), Some("a".to_string())).unwrap()),
        "No tokens to remove."
    );
    assert_eq!(
        reported(remove_custom_token(config(None, Some(&["a"])), Some("a".to_string())).unwrap()),
        "No matching token found."
    );
    assert_eq!(
        remove_custom_token(config(None, Some(&["a"])), None).err(),
        Some("Must provide token to remove.".to_string())
    );
}

#[test]
fn setting_and_clearing_the_zone() {
    let (c, done) = stored(
        set_tz_config(config(None, Some(&["a"])), Some("US/Central".to_string())).unwrap(),
    );
    assert_eq!(c.default_timezone, Some("US/Central".to_string()));
    assert_eq!(c.custom_parsing_tokens, Some(vec!["a".to_string()]));
    assert_eq!(done, "Timezone updated to US/Central");
    assert_eq!(
        set_tz_config(config(None, None), Some("Mars/Olympus".to_string())).err(),
        Some("Invalid timezone provided.".to_string())
    );
    assert_eq!(
        set_tz_config(config(None, None), None).err(),
        Some("Must provide timezone argument.".to_string())
    );
    let (c, done) = stored(clear_tz_config(config(Some("US/Central"), None)));
    assert_eq!(c.default_timezone, None);
    assert_eq!(done, "Timezone cleared.");
}

#[test]
fn zone_precedence() {
    let stored_central = config(Some("US/Central"), None);
    assert_eq!(get_timezone(Some("UTC".to_string()), &stored_central), Ok(UTC));
    assert_eq!(get_timezone(None, &stored_central), Ok(Central));
    assert_eq!(get_timezone(None, &config(None, None)), Ok(UTC));
    assert_eq!(get_timezone(None, &config(Some("Nowhere/Land"), None)), Ok(UTC));
    assert_eq!(
        get_timezone(Some("Nowhere/Land".to_string()), &stored_central),
        Err("Unable to parse TIMEZONE env variable.".to_string())
    );
    assert_eq!(get_env_timezone(None), Ok(None));
    assert_eq!(get_env_timezone(Some("US/Central".to_string())), Ok(Some(Central)));
}
