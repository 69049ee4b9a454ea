//! The calendar, which this crate leaves to `chrono`: what a count of
//! seconds looks like as a date, and which count a written date stands for.
//!
//! Nothing in this file is proved. Each function states what the crate
//! relies on.

use vstd::prelude::*;
use chrono::format::ParseError;
use crate::constants::{
    DATE_FORMAT, FIRST_PLAIN_YEAR_SECOND, LAST_PLAIN_YEAR_SECOND, MAX_SECONDS, MIN_SECONDS,
};

verus! {

/// `chrono`'s reason for refusing a written date.
#[verifier::external_type_specification]
#[verifier::external_body]
pub struct ExParseError(ParseError);

/// The text that `chrono` writes for the moment `seconds` after the Unix
/// epoch under the strftime pattern `format`.
pub uninterp spec fn formatted_time(seconds: int, format: Seq<char>) -> Seq<char>;

/// The moment, in seconds after the Unix epoch, that `chrono` reads from
/// `text` under the strftime pattern `format`; `None` where it refuses `text`.
pub uninterp spec fn parsed_time(text: Seq<char>, format: Seq<char>) -> Option<int>;

/// Whether `c` is one of the ten decimal digits.
pub open spec fn is_digit(c: char) -> bool {
    '0' <= c && c <= '9'
}

/// Whether `text` has the shape `YYYY-MM-DD HH:MM`: sixteen characters,
/// digits but for the two hyphens, the space and the colon.
pub open spec fn is_minute_text(text: Seq<char>) -> bool {
    &&& text.len() == 16
    &&& text[4] == '-'
    &&& text[7] == '-'
    &&& text[10] == ' '
    &&& text[13] == ':'
    &&& forall|i: int|
        0 <= i < 16 && i != 4 && i != 7 && i != 10 && i != 13 ==> is_digit(#[trigger] text[i])
}

/// Calls `chrono::DateTime::from_timestamp` for the moment, then
/// `NaiveDateTime::format` and `to_string` for its text.
///
/// Claimed of them: the text depends on the moment and the pattern alone,
/// not on a locale or a time zone, and for a year from 0000 to 9999 the
/// pattern [`DATE_FORMAT`] gives four digits for the year and two for each
/// other field. The `requires` keeps to moments that `chrono` can hold and to
/// the one pattern known to be valid, since formatting with a malformed
/// pattern panics.
#[verifier::external_body]
pub(crate) fn format_seconds(seconds: i64, format: &str) -> (out: String)
    requires
        MIN_SECONDS <= seconds <= MAX_SECONDS,
        format@ == DATE_FORMAT@,
    ensures
        out@ == formatted_time(seconds as int, format@),
        FIRST_PLAIN_YEAR_SECOND <= seconds <= LAST_PLAIN_YEAR_SECOND ==> is_minute_text(out@),
{
    let moment = chrono::DateTime::from_timestamp(seconds, 0).unwrap();
    moment.naive_utc().format(format).to_string()
}

/// Calls `chrono::NaiveDateTime::parse_from_str`, and `and_utc` and
/// `timestamp` on what it read.
///
/// Claimed of them: whether the text is accepted, and as which moment,
/// depends on the text and the pattern alone.
#[verifier::external_body]
pub(crate) fn parse_seconds(text: &str, format: &str) -> (out: Result<i64, ParseError>)
    ensures
        match out {
            Ok(seconds) => parsed_time(text@, format@) == Some(seconds as int),
            Err(_) => parsed_time(text@, format@) is None,
        },
{
    match chrono::NaiveDateTime::parse_from_str(text, format) {
        Ok(moment) => Ok(moment.and_utc().timestamp()),
        Err(error) => Err(error),
    }
}

/// Calls `to_string` on a `ParseError`: the reason in words. Nothing is
/// claimed of the text.
#[verifier::external_body]
pub(crate) fn parse_error_text(error: &ParseError) -> String {
    error.to_string()
}

} // verus!
