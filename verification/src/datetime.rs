use vstd::prelude::*;

use crate::error::ErrorKind;

verus! {

/// chrono's naive date-time, carried through opaquely: the library only
/// parses into it and hands it on.
#[verifier::external_type_specification]
#[verifier::external_body]
pub struct ExNaiveDateTime(chrono::NaiveDateTime);

/// chrono's parse error, mapped to this library's validation error.
#[verifier::external_type_specification]
#[verifier::external_body]
pub struct ExParseError(chrono::ParseError);

/// Whether chrono parses the text `s` as a date-time under the format
/// `fmt`: a function of the two texts alone.
pub uninterp spec fn datetime_parses(s: Seq<char>, fmt: Seq<char>) -> bool;

/// Relies on chrono's `NaiveDateTime::parse_from_str`: whether the text
/// parses under the format depends on the text and the format alone.
pub assume_specification[ chrono::NaiveDateTime::parse_from_str ](s: &str, fmt: &str) -> (r:
    Result<chrono::NaiveDateTime, chrono::ParseError>)
    ensures
        r is Ok <==> datetime_parses(s@, fmt@),
;

/// The fixed format of the date arguments the operator may pass.
pub open spec fn datetime_format() -> Seq<char> {
    "%Y-%m-%dT%H:%M:%S%.fZ"@
}

/// The fixed format of the date arguments, as a value.
pub fn datetime_format_text() -> (r: &'static str)
    ensures
        r@ == datetime_format(),
{
    "%Y-%m-%dT%H:%M:%S%.fZ"
}

/// Parses an optional date argument under the fixed format. No argument
/// is no date and no error; an argument that chrono parses is the date;
/// one it does not parse is a validation error, and nothing else is
/// reported.
pub fn maybe_parse_datetime(maybe_date: Option<String>) -> (r: Result<
    Option<chrono::NaiveDateTime>,
    ErrorKind,
>)
    ensures
        maybe_date is None ==> (r matches Ok(o) && o is None),
        maybe_date matches Some(s) && datetime_parses(s@, datetime_format()) ==> (r matches Ok(o)
            && o is Some),
        maybe_date matches Some(s) && !datetime_parses(s@, datetime_format()) ==> (r matches Err(e)
            && e == ErrorKind::Validation),
{
    match maybe_date {
        None => Ok(None),
        Some(s) => match chrono::NaiveDateTime::parse_from_str(s.as_str(), datetime_format_text()) {
            Ok(parsed) => Ok(Some(parsed)),
            Err(_) => Err(ErrorKind::Validation),
        },
    }
}

} // verus!
