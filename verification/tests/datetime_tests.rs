use ad4m_cli::datetime::{datetime_format_text, maybe_parse_datetime};
use ad4m_cli::error::ErrorKind;

#[test]
fn no_date_is_no_date_and_no_error() {
    let r = maybe_parse_datetime(None);
    assert!(matches!(r, Ok(None)));
}

#[test]
fn well_formed_date_parses_to_the_expected_moment() {
    let r = maybe_parse_datetime(Some("2022-06-30T12:45:01.500Z".to_string()));
    let parsed = r.expect("a well-formed date must parse").expect("a date was given");
    let expected = chrono::NaiveDate::from_ymd_opt(2022, 6, 30)
        .unwrap()
        .and_hms_milli_opt(12, 45, 1, 500)
        .unwrap();
    assert_eq!(parsed, expected);
}

#[test]
fn malformed_date_is_a_validation_error() {
    let r = maybe_parse_datetime(Some("yesterday at noon".to_string()));
    assert_eq!(r.unwrap_err(), ErrorKind::Validation);
    let r2 = maybe_parse_datetime(Some("2022-13-40T99:99:99.000Z".to_string()));
    assert!(r2.is_err());
}

#[test]
fn format_is_the_fixed_one() {
    assert_eq!(datetime_format_text(), "%Y-%m-%dT%H:%M:%S%.fZ");
}
