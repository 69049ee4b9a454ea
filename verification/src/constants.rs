//! Fixed configuration shared by the whole crate.

use vstd::prelude::*;

verus! {

/// How a date is written and read: `YYYY-MM-DD HH:MM`.
pub const DATE_FORMAT: &'static str = "%Y-%m-%d %H:%M";

/// The seconds of one day.
pub const SECONDS_PER_DAY: i64 = 86_400;

/// The first second of the year -262143, the earliest that a date can hold.
pub const MIN_SECONDS: i64 = -8_334_601_228_800;

/// The last second of the year 262142, the latest that a date can hold.
pub const MAX_SECONDS: i64 = 8_210_266_876_799;

/// The first second of the year 0000.
pub const FIRST_PLAIN_YEAR_SECOND: i64 = -62_167_219_200;

/// The last second of the year 9999.
pub const LAST_PLAIN_YEAR_SECOND: i64 = 253_402_300_799;

} // verus!
