use chrono_tz::US::Central;
use chrono_tz::UTC;
use rti::datetime_parsing::{parse_arg, INVALID_ARG};

const EMPTY_VEC: Vec<String> = Vec::new();

#[test]
fn test_24_hour_time() {
    assert_ne!(
        parse_arg("13:55", &UTC, &EMPTY_VEC),
        Err(INVALID_ARG.to_string())
    );
}

#[test]
fn datetime_parsing_test_24_hour_time() {
    assert_ne!(
        parse_arg("13:55", &Central, &EMPTY_VEC),
        Err(INVALID_ARG.to_string())
    );
}

#[test]
fn mod_test_24_hour_time() {
    assert_ne!(
        parse_arg("13:55", &UTC, &EMPTY_VEC),
        Err(INVALID_ARG.to_string())
    );
    assert_ne!(
        parse_arg("13:55", &Central, &EMPTY_VEC),
        Err(INVALID_ARG.to_string())
    );
}

#[test]
fn test_padded_hour_uppercase() {
    assert_ne!(
        parse_arg("01:23 PM", &UTC, &EMPTY_VEC),
        Err(INVALID_ARG.to_string())
    );
}

#[test]
fn datetime_parsing_test_padded_hour_uppercase() {
    assert_ne!(
        parse_arg("01:23 PM", &Central, &EMPTY_VEC),
        Err(INVALID_ARG.to_string())
    );
}

#[test]
fn mod_test_padded_hour_uppercase() {
    assert_ne!(
        parse_arg("01:23 PM", &UTC, &EMPTY_VEC),
        Err(INVALID_ARG.to_string())
    );
    assert_ne!(
        parse_arg("01:23 PM", &Central, &EMPTY_VEC),
        Err(INVALID_ARG.to_string())
    );
}

#[test]
fn test_padded_hour_lowercase() {
    assert_ne!(
        parse_arg("01:23 pm", &UTC, &EMPTY_VEC),
        Err(INVALID_ARG.to_string())
    );
}

#[test]
fn datetime_parsing_test_padded_hour_lowercase() {
    assert_ne!(
        parse_arg("01:23 pm", &Central, &EMPTY_VEC),
        Err(INVALID_ARG.to_string())
    );
}

#[test]
fn mod_test_padded_hour_lowercase() {
    assert_ne!(
        parse_arg("01:23 pm", &UTC, &EMPTY_VEC),
        Err(INVALID_ARG.to_string())
    );
    assert_ne!(
        parse_arg("01:23 pm", &Central, &EMPTY_VEC),
        Err(INVALID_ARG.to_string())
    );
}

#[test]
fn test_not_padded_hour_lowercase() {
    assert_ne!(
        parse_arg("1:23 pm", &UTC, &EMPTY_VEC),
        Err(INVALID_ARG.to_string())
    );
}

#[test]
fn datetime_parsing_test_not_padded_hour_lowercase() {
    assert_ne!(
        parse_arg("1:23 pm", &Central, &EMPTY_VEC),
        Err(INVALID_ARG.to_string())
    );
}

#[test]
fn mod_test_not_padded_hour_lowercase() {
    assert_ne!(
        parse_arg("1:23 pm", &UTC, &EMPTY_VEC),
        Err(INVALID_ARG.to_string())
    );
    assert_ne!(
        parse_arg("1:23 pm", &Central, &EMPTY_VEC),
        Err(INVALID_ARG.to_string())
    );
}

#[test]
fn test_not_padded_hour_uppercase() {
    assert_ne!(
        parse_arg("1:23 PM", &UTC, &EMPTY_VEC),
        Err(INVALID_ARG.to_string())
    );
}

#[test]
fn datetime_parsing_test_not_padded_hour_uppercase() {
    assert_ne!(
        parse_arg("1:23 PM", &Central, &EMPTY_VEC),
        Err(INVALID_ARG.to_string())
    );
}

#[test]
fn mod_test_not_padded_hour_uppercase() {
    assert_ne!(
        parse_arg("1:23 PM", &UTC, &EMPTY_VEC),
        Err(INVALID_ARG.to_string())
    );
    assert_ne!(
        parse_arg("1:23 PM", &Central, &EMPTY_VEC),
        Err(INVALID_ARG.to_string())
    );
}
