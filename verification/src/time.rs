//! Timestamps: reading RFC 3339 text and turning local form input into it.

use chrono::TimeZone;
use vstd::prelude::*;
use crate::text::Text;

verus! {

/// A point in time: whole seconds since the Unix epoch and the nanoseconds
/// past that second.
#[derive(Debug, Clone, Copy, PartialEq, Eq, Structural)]
pub struct Instant {
    pub secs: i64,
    pub nanos: u32,
}

impl Instant {
    /// Whether `self` lies strictly after `other`.
    pub open spec fn later_than(self, other: Instant) -> bool {
        self.secs > other.secs || (self.secs == other.secs && self.nanos > other.nanos)
    }

    /// Whether this instant lies strictly after `other`.
    pub fn is_after(&self, other: &Instant) -> (after: bool)
        ensures
            after == self.later_than(*other),
    {
        self.secs > other.secs || (self.secs == other.secs && self.nanos > other.nanos)
    }
}

/// The instant that an RFC 3339 date-and-time text denotes, if it is one.
pub uninterp spec fn rfc3339_instant(s: Text) -> Option<Instant>;

/// The RFC 3339 text for a local date and time read with `format` in the zone
/// `offset_secs` east of UTC, if the input has that format and the zone and
/// the resulting time exist.
pub uninterp spec fn local_rfc3339(input: Text, format: Text, offset_secs: i32) -> Option<Text>;

/// The format of local date-and-time form input.
pub open spec fn wib_format() -> Text {
    "%Y-%m-%d %H:%M"@
}

/// The offset of Western Indonesia Time from UTC, in seconds.
pub const WIB_OFFSET_SECS: i32 = 25200;

/// The RFC 3339 text of a Western Indonesia Time input `YYYY-MM-DD HH:MM`.
pub open spec fn wib_rfc3339(input: Text) -> Option<Text> {
    local_rfc3339(input, wib_format(), WIB_OFFSET_SECS)
}

/// The message returned for input that is not a local date and time.
pub open spec fn wib_error() -> Text {
    "Wrong time format! Use: YYYY-MM-DD HH:MM (E.g: 2025-11-25 19:30)"@
}

/// Epoch seconds of an RFC 3339 text, or zero when the text is not one.
pub open spec fn epoch_seconds(s: Text) -> i64 {
    match rfc3339_instant(s) {
        Some(t) => t.secs,
        None => 0,
    }
}

/// `DateTime::parse_from_rfc3339` reads the text; `timestamp` and
/// `timestamp_subsec_nanos` give the seconds and nanoseconds of the result.
#[verifier::external_body]
pub(crate) fn read_rfc3339(s: &str) -> (at: Option<Instant>)
    ensures
        at == rfc3339_instant(s@),
{
    let parsed = chrono::DateTime::parse_from_rfc3339(s).ok()?;
    Some(Instant { secs: parsed.timestamp(), nanos: parsed.timestamp_subsec_nanos() })
}

/// `NaiveDateTime::parse_from_str` reads the input with the format,
/// `FixedOffset::east_opt` makes the zone, `from_local_datetime` places the
/// time in it and `to_rfc3339` writes it out; any step may fail.
#[verifier::external_body]
pub(crate) fn local_to_rfc3339(input: &str, format: &str, offset_secs: i32) -> (iso: Option<String>)
    ensures
        match iso {
            Some(text) => local_rfc3339(input@, format@, offset_secs) == Some(text@),
            None => local_rfc3339(input@, format@, offset_secs) is None,
        },
{
    let naive = chrono::NaiveDateTime::parse_from_str(input, format).ok()?;
    let zone = chrono::FixedOffset::east_opt(offset_secs)?;
    zone.from_local_datetime(&naive).single().map(|at| at.to_rfc3339())
}

/// `Utc::now` reads the clock; `timestamp` and `timestamp_subsec_nanos` give
/// the seconds and nanoseconds of what it read.
#[verifier::external_body]
pub(crate) fn read_clock() -> (at: Instant) {
    let read = chrono::Utc::now();
    Instant { secs: read.timestamp(), nanos: read.timestamp_subsec_nanos() }
}

/// `Utc::now` reads the clock and `to_rfc3339` writes what it read.
#[verifier::external_body]
pub(crate) fn read_clock_as_text() -> (stamp: String) {
    chrono::Utc::now().to_rfc3339()
}

/// The present instant, as the clock has it.
pub fn now() -> Instant {
    read_clock()
}

/// The present instant as RFC 3339 text, for stamping rows.
pub fn now_rfc3339() -> String {
    read_clock_as_text()
}

/// Reads an RFC 3339 text as an instant.
pub fn parse_instant(s: &str) -> (at: Option<Instant>)
    ensures
        at == rfc3339_instant(s@),
{
    read_rfc3339(s)
}

/// Epoch seconds of an RFC 3339 text; zero stands for text that is not one.
pub fn timestamp_or_zero(s: &str) -> (secs: i64)
    ensures
        secs == epoch_seconds(s@),
{
    match read_rfc3339(s) {
        Some(at) => at.secs,
        None => 0,
    }
}

/// Parses a local Western Indonesia Time input `YYYY-MM-DD HH:MM` into
/// RFC 3339 text with offset `+07:00`.
pub fn parse_wib(input: &str) -> (res: Result<String, String>)
    ensures
        match res {
            Ok(iso) => wib_rfc3339(input@) == Some(iso@),
            Err(msg) => wib_rfc3339(input@) is None && msg@ == wib_error(),
        },
{
    match local_to_rfc3339(input, "%Y-%m-%d %H:%M", WIB_OFFSET_SECS) {
        Some(iso) => Ok(iso),
        None => Err("Wrong time format! Use: YYYY-MM-DD HH:MM (E.g: 2025-11-25 19:30)".to_string()),
    }
}

} // verus!
