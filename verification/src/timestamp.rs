//! Reading and writing timestamps in their wire form. What is written is
//! `YYYY-MM-DDTHH:MM:SS`, followed by a fraction of a second where there is
//! one, and with a sign before a year of more than four digits. What is read
//! is whatever `chrono` reads as a date and time without a zone: the written
//! form and more (white space around the items, fields of one digit, a
//! second of 60). The contracts speak of both by name only.

use crate::model::Timestamp;
use vstd::prelude::*;

verus! {

/// What `chrono` reads from `text` as a date and time without a zone, as
/// seconds since 1970-01-01T00:00:00 and nanoseconds past the second; `None`
/// where `chrono` refuses the text.
pub uninterp spec fn parsed_timestamp(text: Seq<char>) -> Option<Timestamp>;

/// The text that `chrono` writes for the date and time `at`; `None` where
/// `chrono` has no date and time for these seconds and nanoseconds.
pub uninterp spec fn written_timestamp(at: Timestamp) -> Option<Seq<char>>;

/// Calls `<chrono::NaiveDateTime as FromStr>::from_str` and takes the result
/// apart with `DateTime::<Utc>::timestamp` and `timestamp_subsec_nanos`.
/// Trusted: the outcome depends on `text` alone.
#[verifier::external_body]
pub(crate) fn parse_timestamp(text: &str) -> (at: Option<Timestamp>)
    ensures
        at == parsed_timestamp(text@),
{
    text.parse::<chrono::NaiveDateTime>().ok().map(
        |at| Timestamp {
            seconds: at.and_utc().timestamp(),
            nanos: at.and_utc().timestamp_subsec_nanos(),
        },
    )
}

/// Calls `chrono::DateTime::<Utc>::from_timestamp` and writes the date and
/// time it returns with `NaiveDateTime`'s `Debug` form. Trusted: the outcome
/// depends on `at` alone.
#[verifier::external_body]
pub(crate) fn write_timestamp(at: Timestamp) -> (text: Option<String>)
    ensures
        match text {
            Some(text) => written_timestamp(at) == Some(text@),
            None => written_timestamp(at) is None,
        },
{
    chrono::DateTime::from_timestamp(at.seconds, at.nanos).map(|at| format!("{:?}", at.naive_utc()))
}

} // verus!
