use chrono_tz::US::Central;
use chrono_tz::UTC;
use rti::datetime_parsing::parse_arg;

const EMPTY_VEC: Vec<String> = Vec::new();

#[test]
fn test_dashes_long_year_no_pad() {
    assert_eq!(
        parse_arg("5-1-1993", &UTC, &EMPTY_VEC),
        Ok("736214400".to_string())
    );
}

#[test]
fn datetime_parsing_test_dashes_long_year_no_pad() {
    assert_eq!(
        parse_arg("5-1-1993", &Central, &EMPTY_VEC),
        Ok("736232400".to_string())
    );
}

#[test]
fn mod_test_dashes_long_year_no_pad() {
    assert_eq!(parse_arg("5-1-1993", &UTC, &EMPTY_VEC), Ok("736214400".to_string()));
    assert_eq!(parse_arg("5-1-1993", &Central, &EMPTY_VEC), Ok("736232400".to_string()));
}

#[test]
fn test_dashes_long_year_padded() {
    assert_eq!(
        parse_arg("05-01-1993", &UTC, &EMPTY_VEC),
        Ok("736214400".to_string())
    );
}

#[test]
fn datetime_parsing_test_dashes_long_year_padded() {
    assert_eq!(
        parse_arg("05-01-1993", &Central, &EMPTY_VEC),
        Ok("736232400".to_string())
    );
}

#[test]
fn mod_test_dashes_long_year_padded() {
    assert_eq!(parse_arg("05-01-1993", &UTC, &EMPTY_VEC), Ok("736214400".to_string()));
    assert_eq!(parse_arg("05-01-1993", &Central, &EMPTY_VEC), Ok("736232400".to_string()));
}

#[test]
fn test_dashes_short_year_no_pad() {
    assert_eq!(
        parse_arg("5-1-93", &UTC, &EMPTY_VEC),
        Ok("736214400".to_string())
    );
}

#[test]
fn datetime_parsing_test_dashes_short_year_no_pad() {
    assert_eq!(
        parse_arg("5-1-93", &Central, &EMPTY_VEC),
        Ok("736232400".to_string())
    );
}

#[test]
fn mod_test_dashes_short_year_no_pad() {
    assert_eq!(parse_arg("5-1-93", &UTC, &EMPTY_VEC), Ok("736214400".to_string()));
    assert_eq!(parse_arg("5-1-93", &Central, &EMPTY_VEC), Ok("736232400".to_string()));
}

#[test]
fn test_dashes_short_year_padded() {
    assert_eq!(
        parse_arg("05-01-93", &UTC, &EMPTY_VEC),
        Ok("736214400".to_string())
    );
}

#[test]
fn datetime_parsing_test_dashes_short_year_padded() {
    assert_eq!(
        parse_arg("05-01-93", &Central, &EMPTY_VEC),
        Ok("736232400".to_string())
    );
}

#[test]
fn mod_test_dashes_short_year_padded() {
    assert_eq!(parse_arg("05-01-93", &UTC, &EMPTY_VEC), Ok("736214400".to_string()));
    assert_eq!(parse_arg("05-01-93", &Central, &EMPTY_VEC), Ok("736232400".to_string()));
}

#[test]
fn test_slashes_short_year() {
    assert_eq!(
        parse_arg("5/1/93", &UTC, &EMPTY_VEC),
        Ok("736214400".to_string())
    );
}

#[test]
fn datetime_parsing_test_slashes_short_year() {
    assert_eq!(
        parse_arg("5/1/93", &Central, &EMPTY_VEC),
        Ok("736232400".to_string())
    );
}

#[test]
fn mod_test_slashes_short_year() {
    assert_eq!(parse_arg("5/1/93", &UTC, &EMPTY_VEC), Ok("736214400".to_string()));
    assert_eq!(parse_arg("5/1/93", &Central, &EMPTY_VEC), Ok("736232400".to_string()));
}

#[test]
fn test_slashes_long_year() {
    assert_eq!(
        parse_arg("5/1/1993", &UTC, &EMPTY_VEC),
        Ok("736214400".to_string())
    );
}

#[test]
fn datetime_parsing_test_slashes_long_year() {
    assert_eq!(
        parse_arg("5/1/1993", &Central, &EMPTY_VEC),
        Ok("736232400".to_string())
    );
}

#[test]
fn mod_test_slashes_long_year() {
    assert_eq!(parse_arg("5/1/1993", &UTC, &EMPTY_VEC), Ok("736214400".to_string()));
    assert_eq!(parse_arg("5/1/1993", &Central, &EMPTY_VEC), Ok("736232400".to_string()));
}

#[test]
fn test_dashes_year_padded_month_day() {
    assert_eq!(
        parse_arg("1993-01-03", &UTC, &EMPTY_VEC),
        Ok("726019200".to_string())
    );
}

#[test]
fn datetime_parsing_test_dashes_year_padded_month_day() {
    assert_eq!(
        parse_arg("1993-01-03", &Central, &EMPTY_VEC),
        Ok("726040800".to_string())
    );
}

#[test]
fn mod_test_dashes_year_padded_month_day() {
    assert_eq!(parse_arg("1993-01-03", &UTC, &EMPTY_VEC), Ok("726019200".to_string()));
    assert_eq!(parse_arg("1993-01-03", &Central, &EMPTY_VEC), Ok("726040800".to_string()));
}

#[test]
fn test_dashes_year_month_day() {
    assert_eq!(
        parse_arg("1993-1-3", &UTC, &EMPTY_VEC),
        Ok("726019200".to_string())
    );
}

#[test]
fn datetime_parsing_test_dashes_year_month_day() {
    assert_eq!(
        parse_arg("1993-1-3", &Central, &EMPTY_VEC),
        Ok("726040800".to_string())
    );
}

#[test]
fn mod_test_dashes_year_month_day() {
    assert_eq!(parse_arg("1993-1-3", &UTC, &EMPTY_VEC), Ok("726019200".to_string()));
    assert_eq!(parse_arg("1993-1-3", &Central, &EMPTY_VEC), Ok("726040800".to_string()));
}

#[test]
fn test_dashes_day_word_month_year() {
    assert_eq!(
        parse_arg("3-Jan-1993", &UTC, &EMPTY_VEC),
        Ok("726019200".to_string())
    );
}

#[test]
fn datetime_parsing_test_dashes_day_word_month_year() {
    assert_eq!(
        parse_arg("3-Jan-1993", &Central, &EMPTY_VEC),
        Ok("726040800".to_string())
    );
}

#[test]
fn mod_test_dashes_day_word_month_year() {
    assert_eq!(parse_arg("3-Jan-1993", &UTC, &EMPTY_VEC), Ok("726019200".to_string()));
    assert_eq!(parse_arg("3-Jan-1993", &Central, &EMPTY_VEC), Ok("726040800".to_string()));
}
