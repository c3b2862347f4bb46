//! The two places where the library asks what time it is, and how a moment is
//! written as a calendar date.

use chrono::{DateTime, Utc};
use std::fmt::Write;
use std::time::{SystemTime, UNIX_EPOCH};
use vstd::prelude::*;

verus! {

/// What `chrono` writes for the moment `seconds` after the start of 1970 in
/// UTC under the format `pattern`; nothing where the moment lies outside the
/// range of its calendar or the pattern cannot be written.
pub uninterp spec fn utc_text(seconds: i64, pattern: Seq<char>) -> Option<Seq<char>>;

/// The format under which a day is written into a serial: year, month and
/// day without separators.
pub open spec fn date_pattern() -> Seq<char> {
    "%Y%m%d"@
}

/// Reads the system clock with `SystemTime::now` and measures it against
/// `UNIX_EPOCH`. The result is the number of whole seconds since then, or
/// nothing where the clock stands before 1970. Nothing is claimed of the
/// value: two readings may differ.
#[verifier::external_body]
pub(crate) fn unix_seconds() -> (seconds: Option<u64>) {
    match SystemTime::now().duration_since(UNIX_EPOCH) {
        Ok(elapsed) => Some(elapsed.as_secs()),
        Err(_) => None,
    }
}

/// Builds the moment with `chrono::DateTime::from_timestamp` and writes it
/// with `DateTime::format`. The contract claims only that the text is a
/// function of the two arguments, named [`utc_text`], and only for the
/// format of days.
#[verifier::external_body]
pub(crate) fn format_utc(seconds: i64, pattern: &str) -> (text: Option<String>)
    requires
        pattern@ == date_pattern(),
    ensures
        text.deep_view() == utc_text(seconds, pattern@),
{
    let mut text = String::new();
    match DateTime::<Utc>::from_timestamp(seconds, 0) {
        Some(moment) => match write!(text, "{}", moment.format(pattern)) {
            Ok(()) => Some(text),
            Err(_) => None,
        },
        None => None,
    }
}

} // verus!
