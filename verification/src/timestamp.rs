//! Points in time, as the filter engine compares them.

use chrono::NaiveDateTime;
use vstd::prelude::*;

verus! {

/// A calendar date and time of day without a time zone: whole seconds since
/// 1970-01-01 00:00:00 and the nanoseconds past that second. The nanosecond
/// part exceeds 999,999,999 inside a leap second.
#[derive(Clone, Copy, Debug, PartialEq, Eq, Structural, Hash)]
pub struct Timestamp {
    pub seconds: i64,
    pub nanos: u32,
}

/// What `NaiveDateTime::parse_from_str` makes of `text` under the `strftime`
/// pattern `format`: nothing where it reports an error, else the parsed
/// moment as whole seconds since the epoch and nanoseconds past the second.
pub uninterp spec fn datetime_parsed(text: Seq<char>, format: Seq<char>) -> Option<(i64, u32)>;

/// `NaiveDateTime::parse_from_str`, with the parsed value read out through
/// `and_utc().timestamp()` and `and_utc().timestamp_subsec_nanos()`.
#[verifier::external_body]
fn parse_datetime(text: &str, format: &str) -> (r: Option<(i64, u32)>)
    ensures
        r == datetime_parsed(text@, format@),
{
    match NaiveDateTime::parse_from_str(text, format) {
        Ok(t) => Some((t.and_utc().timestamp(), t.and_utc().timestamp_subsec_nanos())),
        Err(_) => None,
    }
}

/// The layout of a date literal: month, day and two-digit year separated by
/// slashes, a space, then hours and minutes on the 24-hour clock.
pub open spec fn date_format() -> Seq<char> {
    "%m/%d/%y %H:%M"@
}

/// The moment a date literal denotes, if it is one.
pub open spec fn date_literal(text: Seq<char>) -> Option<Timestamp> {
    match datetime_parsed(text, date_format()) {
        Some((seconds, nanos)) => Some(Timestamp { seconds, nanos }),
        None => None,
    }
}

impl Timestamp {
    /// Chronological order: `self` is no later than `other`.
    pub open spec fn at_or_before(self, other: Timestamp) -> bool {
        self.seconds < other.seconds || (self.seconds == other.seconds && self.nanos
            <= other.nanos)
    }

    /// Whether `self` is no later than `other`.
    pub fn le(&self, other: &Timestamp) -> (r: bool)
        ensures
            r == self.at_or_before(*other),
    {
        self.seconds < other.seconds || (self.seconds == other.seconds && self.nanos
            <= other.nanos)
    }

    /// Whether `self` is no earlier than `other`.
    pub fn ge(&self, other: &Timestamp) -> (r: bool)
        ensures
            r == other.at_or_before(*self),
    {
        other.le(self)
    }

    /// Reads a date literal in the `MM/DD/YY HH:MM` layout.
    pub fn parse(text: &str) -> (r: Option<Timestamp>)
        ensures
            r == date_literal(text@),
    {
        match parse_datetime(text, "%m/%d/%y %H:%M") {
            Some((seconds, nanos)) => Some(Timestamp { seconds, nanos }),
            None => None,
        }
    }
}

/// The chronological order is total.
pub proof fn timestamp_order_total(a: Timestamp, b: Timestamp)
    ensures
        a.at_or_before(b) || b.at_or_before(a),
        a.at_or_before(b) && b.at_or_before(a) ==> a == b,
{
}

} // verus!
