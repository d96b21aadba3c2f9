use chrono_tz::US::Central;
use chrono_tz::UTC;
use rti::datetime_parsing::parse_arg;

const EMPTY_VEC: Vec<String> = Vec::new();

#[test]
fn test_multi_part() {
    assert_eq!(
        parse_arg("1-May-1993 4:50 AM", &UTC, &EMPTY_VEC),
        Ok("736231800".to_string())
    );
}

#[test]
fn datetime_parsing_test_multi_part() {
    assert_eq!(
        parse_arg("1-May-1993 4:50 AM", &Central, &EMPTY_VEC),
        Ok("736249800".to_string())
    );
}

#[test]
fn mod_test_multi_part() {
    assert_eq!(parse_arg("1-May-1993 4:50 AM", &UTC, &EMPTY_VEC), Ok("736231800".to_string()));
    assert_eq!(parse_arg("1-May-1993 4:50 AM", &Central, &EMPTY_VEC), Ok("736249800".to_string()));
}

#[test]
fn test_slashes_date_lowercase_am() {
    assert_eq!(
        parse_arg("5/1/93 4:50 am", &UTC, &EMPTY_VEC),
        Ok("736231800".to_string())
    );
}

#[test]
fn datetime_parsing_test_slashes_date_lowercase_am() {
    assert_eq!(
        parse_arg("5/1/93 4:50 am", &Central, &EMPTY_VEC),
        Ok("736249800".to_string())
    );
}

#[test]
fn mod_test_slashes_date_lowercase_am() {
    assert_eq!(parse_arg("5/1/93 4:50 am", &UTC, &EMPTY_VEC), Ok("736231800".to_string()));
    assert_eq!(parse_arg("5/1/93 4:50 am", &Central, &EMPTY_VEC), Ok("736249800".to_string()));
}

#[test]
fn test_dashes_then_24hour_time() {
    assert_eq!(
        parse_arg("2022-04-22 13:40:09", &UTC, &EMPTY_VEC),
        Ok("1650634809".to_string())
    );
}

#[test]
fn datetime_parsing_test_dashes_then_24hour_time() {
    assert_eq!(
        parse_arg("2022-04-22 13:40:09", &Central, &EMPTY_VEC),
        Ok("1650652809".to_string())
    );
}

#[test]
fn mod_test_dashes_then_24hour_time() {
    assert_eq!(parse_arg("2022-04-22 13:40:09", &UTC, &EMPTY_VEC), Ok("1650634809".to_string()));
    assert_eq!(parse_arg("2022-04-22 13:40:09", &Central, &EMPTY_VEC), Ok("1650652809".to_string()));
}

#[test]
fn test_custom_datetime_parsing() {
    let vec_with_token: Vec<String> = ["%d-%m-%y %H:%M".to_string()].to_vec();
    assert_eq!(
        parse_arg("24-5-93 13:55", &UTC, &vec_with_token),
        Ok("738251700".to_string())
    );
}
