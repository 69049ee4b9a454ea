//! Moments in time, to the second, without a time zone.

use vstd::prelude::*;
use vstd::string::StringExecFns;
use crate::calendar::{
    format_seconds, formatted_time, is_minute_text, parse_error_text, parse_seconds, parsed_time,
};
use crate::constants::{
    DATE_FORMAT, FIRST_PLAIN_YEAR_SECOND, LAST_PLAIN_YEAR_SECOND, MAX_SECONDS, MIN_SECONDS,
    SECONDS_PER_DAY,
};

verus! {

/// What is said of a date that was read but lies outside the calendar.
pub const OUT_OF_CALENDAR: &'static str = "input is out of range";

/// A moment, counted in seconds after 1970-01-01 00:00, within the years
/// that the calendar covers.
#[derive(Clone, Copy, Debug, PartialEq, Eq, PartialOrd, Ord, Hash, Structural)]
pub struct Timestamp {
    seconds: i64,
}

/// Why a written date was refused.
#[derive(Clone, Debug)]
pub struct DateParseError {
    /// The reason, in words.
    pub reason: String,
}

/// Whether `seconds` is a moment that a [`Timestamp`] can hold.
pub open spec fn in_calendar(seconds: int) -> bool {
    MIN_SECONDS <= seconds <= MAX_SECONDS
}

/// Whether the moment `seconds` lies in a year from 0000 to 9999.
pub open spec fn in_plain_years(seconds: int) -> bool {
    FIRST_PLAIN_YEAR_SECOND <= seconds <= LAST_PLAIN_YEAR_SECOND
}

/// The text of the moment `seconds` under [`DATE_FORMAT`].
pub open spec fn date_text(seconds: int) -> Seq<char> {
    formatted_time(seconds, DATE_FORMAT@)
}

/// The moment that a text stands for under [`DATE_FORMAT`], if any.
pub open spec fn date_value(text: Seq<char>) -> Option<int> {
    parsed_time(text, DATE_FORMAT@)
}

impl View for Timestamp {
    type V = int;

    /// The seconds after the Unix epoch.
    closed spec fn view(&self) -> int {
        self.seconds as int
    }
}

impl Timestamp {
    #[verifier::type_invariant]
    spec fn within_calendar(self) -> bool {
        in_calendar(self.seconds as int)
    }

    /// The moment `seconds` after the Unix epoch, where the calendar covers it.
    pub fn from_seconds(seconds: i64) -> (out: Option<Timestamp>)
        ensures
            out is Some <==> in_calendar(seconds as int),
            out matches Some(t) ==> t@ == seconds,
    {
        if MIN_SECONDS <= seconds && seconds <= MAX_SECONDS {
            Some(Timestamp { seconds })
        } else {
            None
        }
    }

    /// The seconds after the Unix epoch.
    pub fn seconds(&self) -> (out: i64)
        ensures
            out == self@,
            in_calendar(self@),
    {
        proof {
            use_type_invariant(self);
        }
        self.seconds
    }

    /// The moment `days` whole days later, where the calendar covers it.
    pub fn checked_add_days(&self, days: u8) -> (out: Option<Timestamp>)
        ensures
            out is Some <==> self@ + days * SECONDS_PER_DAY <= MAX_SECONDS,
            out matches Some(t) ==> t@ == self@ + days * SECONDS_PER_DAY,
    {
        proof {
            use_type_invariant(self);
        }
        let later: i64 = self.seconds + (days as i64) * SECONDS_PER_DAY;
        Timestamp::from_seconds(later)
    }

    /// The date as text, in [`DATE_FORMAT`].
    pub fn render(&self) -> (out: String)
        ensures
            out@ == date_text(self@),
            in_plain_years(self@) ==> is_minute_text(out@),
    {
        proof {
            use_type_invariant(self);
        }
        format_seconds(self.seconds, DATE_FORMAT)
    }
}

/// Reads a date written in [`DATE_FORMAT`]. A text is refused where it is
/// no such date, or one that the calendar does not cover.
pub fn parse_date(arg: &str) -> (out: Result<Timestamp, DateParseError>)
    ensures
        out is Ok <==> (date_value(arg@) matches Some(seconds) && in_calendar(seconds)),
        out matches Ok(t) ==> date_value(arg@) == Some(t@),
        out matches Err(e) ==> (date_value(arg@) is Some ==> e.reason@ == OUT_OF_CALENDAR@),
{
    match parse_seconds(arg, DATE_FORMAT) {
        Ok(seconds) => match Timestamp::from_seconds(seconds) {
            Some(date) => Ok(date),
            None => Err(DateParseError { reason: String::from_str(OUT_OF_CALENDAR) }),
        },
        Err(error) => Err(DateParseError { reason: parse_error_text(&error) }),
    }
}

} // verus!
