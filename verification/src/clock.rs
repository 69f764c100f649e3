//! Time as the rest of the library sees it: plain integers read from `chrono`.

use vstd::prelude::*;

verus! {

/// An instant: whole seconds since the Unix epoch and the nanoseconds that
/// have passed since that second began.
#[derive(Clone, Copy, Debug, PartialEq, Eq, Structural)]
pub struct Timestamp {
    pub secs: i64,
    pub nanos: u32,
}

/// Nanoseconds in one second.
pub const NANOS_PER_SEC: i64 = 1_000_000_000;

impl Timestamp {
    /// The instant as a count of nanoseconds since the Unix epoch.
    pub open spec fn as_nanos(self) -> int {
        self.secs * NANOS_PER_SEC + self.nanos
    }

    /// The instant `secs` seconds and `nanos` nanoseconds after the epoch.
    pub fn new(secs: i64, nanos: u32) -> (t: Timestamp)
        ensures
            t.secs == secs,
            t.nanos == nanos,
    {
        Timestamp { secs, nanos }
    }

    /// The start of second `secs`.
    pub fn from_secs(secs: i64) -> (t: Timestamp)
        ensures
            t.secs == secs,
            t.nanos == 0,
            t.as_nanos() == secs * NANOS_PER_SEC,
    {
        Timestamp { secs, nanos: 0 }
    }

    /// The whole seconds of an instant that does not lie before the Unix
    /// epoch, counted from the epoch.
    pub fn unix_seconds(self) -> (secs: u64)
        requires
            self.secs >= 0,
        ensures
            secs == self.secs,
    {
        self.secs as u64
    }

    /// The current instant according to the system clock. The clock is
    /// read as the time that has passed since the Unix epoch, so the
    /// instant does not lie before it.
    pub fn now() -> (t: Timestamp)
        ensures
            t.secs >= 0,
    {
        let reading = utc_now();
        Timestamp { secs: reading.0, nanos: reading.1 }
    }
}

/// What `chrono::NaiveDateTime::parse_from_str` makes of `text` under
/// `format`: the seconds since the Unix epoch of the date and time read as
/// UTC, or `None` where the text does not parse.
pub uninterp spec fn parsed_timestamp(text: Seq<char>, format: Seq<char>) -> Option<i64>;

/// The format in which timestamps are stored: `YYYY-MM-DD HH:MM:SS`.
pub open spec fn stored_format() -> Seq<char> {
    "%Y-%m-%d %H:%M:%S"@
}

/// Calls `chrono::Utc::now` and returns its `timestamp()` and
/// `timestamp_subsec_nanos()`. `chrono` takes the reading as the time that
/// has passed since the Unix epoch and does not return where the system
/// clock reads before 1970, so the seconds that come back are not
/// negative. Nothing else is claimed of the reading.
#[verifier::external_body]
fn utc_now() -> (r: (i64, u32))
    ensures
        r.0 >= 0,
{
    let now = chrono::Utc::now();
    (now.timestamp(), now.timestamp_subsec_nanos())
}

/// Calls `chrono::NaiveDateTime::parse_from_str` and converts a successful
/// result to seconds since the Unix epoch. The contract only names the
/// result: the same text always parses the same way under the same format.
#[verifier::external_body]
fn parse_utc_seconds(text: &str, format: &str) -> (r: Option<i64>)
    ensures
        r == parsed_timestamp(text@, format@),
{
    match chrono::NaiveDateTime::parse_from_str(text, format) {
        Ok(parsed) => Some(parsed.and_utc().timestamp()),
        Err(_) => None,
    }
}

/// Reads a stored `YYYY-MM-DD HH:MM:SS` timestamp as seconds since the Unix
/// epoch; `None` where the text is not such a timestamp.
pub fn timestamp_from_text(text: &str) -> (r: Option<i64>)
    ensures
        r == parsed_timestamp(text@, stored_format()),
{
    parse_utc_seconds(text, "%Y-%m-%d %H:%M:%S")
}

} // verus!
