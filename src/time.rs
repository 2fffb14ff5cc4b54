use vstd::prelude::*;

use crate::error::Error;

verus! {

/// The format of the start time of a harvest report, such as
/// `2023-06-01 12:00:00.000 +0000`.
pub const START_TIME_FORMAT: &'static str = "%Y-%m-%d %H:%M:%S%.f %z";

/// The instant, in milliseconds since the epoch, that `s` gives when read in
/// the strftime format `fmt`; none when `s` does not match it.
pub uninterp spec fn parsed_millis(s: Seq<char>, fmt: Seq<char>) -> Option<i64>;

/// Relies on chrono's `DateTime::parse_from_str`, which reads a date, a time
/// and a UTC offset in a strftime format and fails on text that does not
/// match it, and on `DateTime::timestamp_millis`, which gives that instant in
/// milliseconds since the epoch.
#[verifier::external_body]
fn parse_millis(s: &str, fmt: &str) -> (r: Option<i64>)
    ensures
        r == parsed_millis(s@, fmt@),
{
    match chrono::DateTime::parse_from_str(s, fmt) {
        Ok(instant) => Some(instant.timestamp_millis()),
        Err(_) => None,
    }
}

/// The start time of a harvest report in milliseconds since the epoch.
pub open spec fn spec_start_time_millis(start_time: Seq<char>) -> Result<i64, Error> {
    match parsed_millis(start_time, START_TIME_FORMAT@) {
        Some(millis) => Ok(millis),
        None => Err(Error::InvalidTimestamp),
    }
}

/// Reads the start time of a harvest report.
pub fn start_time_millis(start_time: &str) -> (r: Result<i64, Error>)
    ensures
        r == spec_start_time_millis(start_time@),
{
    match parse_millis(start_time, START_TIME_FORMAT) {
        Some(millis) => Ok(millis),
        None => Err(Error::InvalidTimestamp),
    }
}

} // verus!
