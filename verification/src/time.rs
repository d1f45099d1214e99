//! Instants of time as plain integers, the time-to-live rule over them, and
//! the textual form in which an instant is stored.

use std::fmt::Write;
use vstd::prelude::*;

verus! {

/// An instant of UTC time: whole seconds since the start of 1970 and the
/// nanoseconds into that second. The nanoseconds pass 999,999,999 only in a
/// leap second.
#[derive(Clone, Copy, Debug, PartialEq, Eq, Structural)]
pub struct Timestamp {
    pub secs: i64,
    pub nanos: u32,
}

/// Nanoseconds in a second.
pub const NANOS_PER_SECOND: i128 = 1_000_000_000;

/// Nanoseconds in an hour.
pub const NANOS_PER_HOUR: i128 = 3_600_000_000_000;

impl Timestamp {
    /// The instant as a count of nanoseconds since the start of 1970.
    pub open spec fn instant(&self) -> int {
        self.secs * 1_000_000_000 + self.nanos
    }

    /// The instant `secs` seconds and `nanos` nanoseconds after the start of
    /// 1970.
    pub fn new(secs: i64, nanos: u32) -> (t: Timestamp)
        ensures
            t.secs == secs,
            t.nanos == nanos,
    {
        Timestamp { secs, nanos }
    }

    /// The instant as a count of nanoseconds.
    pub fn nanos_since_epoch(&self) -> (n: i128)
        ensures
            n == self.instant(),
    {
        self.secs as i128 * NANOS_PER_SECOND + self.nanos as i128
    }
}

/// A time-to-live of `hours` hours, in nanoseconds.
pub open spec fn ttl_nanos(hours: i64) -> int {
    hours * 3_600_000_000_000
}

/// An entry stored at `cached_at` has expired at `now` when more than the
/// time-to-live has passed between the two.
pub open spec fn expired(cached_at: Timestamp, now: Timestamp, ttl_hours: i64) -> bool {
    now.instant() - cached_at.instant() > ttl_nanos(ttl_hours)
}

/// Whether an entry stored at `cached_at` has expired at `now`, for a
/// time-to-live of `ttl_hours` hours.
pub fn is_expired_at(cached_at: Timestamp, now: Timestamp, ttl_hours: i64) -> (r: bool)
    ensures
        r == expired(cached_at, now, ttl_hours),
{
    let elapsed: i128 = now.nanos_since_epoch() - cached_at.nanos_since_epoch();
    let ttl: i128 = ttl_hours as i128 * NANOS_PER_HOUR;
    elapsed > ttl
}

/// An entry stored at `t0` with time-to-live `ttl_hours` is fresh at every
/// instant up to and including `t0` plus the time-to-live, and expired at
/// every later one.
pub proof fn lemma_ttl_boundary(t0: Timestamp, t: Timestamp, ttl_hours: i64)
    ensures
        t.instant() <= t0.instant() + ttl_nanos(ttl_hours) ==> !expired(t0, t, ttl_hours),
        t.instant() > t0.instant() + ttl_nanos(ttl_hours) ==> expired(t0, t, ttl_hours),
{
}

/// What chrono makes of a text in the RFC 3339 notation for date and time:
/// the instant that it denotes, or nothing where chrono does not accept the
/// text.
pub uninterp spec fn rfc3339_instant(text: Seq<char>) -> Option<Timestamp>;

/// What chrono writes for an instant in the RFC 3339 notation, or nothing
/// where the instant lies outside the dates that chrono can hold.
pub uninterp spec fn rfc3339_text(t: Timestamp) -> Option<Seq<char>>;

/// What chrono makes of a text under a `strftime`-like format that names a
/// time zone: the instant that the text denotes, or nothing where the text
/// does not fit the format.
pub uninterp spec fn formatted_instant(text: Seq<char>, format: Seq<char>) -> Option<Timestamp>;

/// What chrono writes for an instant under a `strftime`-like format, or
/// nothing where chrono cannot hold the instant or does not accept the
/// format.
pub uninterp spec fn formatted_text(t: Timestamp, format: Seq<char>) -> Option<Seq<char>>;

/// What `str::trim` of the standard library leaves of a text: the text
/// without the white space at its two ends.
pub uninterp spec fn trimmed(text: Seq<char>) -> Seq<char>;

/// The error with which chrono refuses a text.
#[verifier::external_type_specification]
#[verifier::external_body]
pub struct ExParseError(chrono::ParseError);

/// Calls `chrono::DateTime::parse_from_rfc3339` and hands back the instant
/// in UTC as seconds and nanoseconds. The contract names the outcome.
#[verifier::external_body]
pub(crate) fn parse_rfc3339(text: &str) -> (r: Result<Timestamp, chrono::ParseError>)
    ensures
        match r {
            Ok(t) => rfc3339_instant(text@) == Some(t),
            Err(_) => rfc3339_instant(text@) is None,
        },
{
    match chrono::DateTime::parse_from_rfc3339(text) {
        Ok(parsed) => {
            let utc = parsed.with_timezone(&chrono::Utc);
            Ok(Timestamp { secs: utc.timestamp(), nanos: utc.timestamp_subsec_nanos() })
        },
        Err(e) => Err(e),
    }
}

/// Calls `chrono::DateTime::parse_from_str` with the given format and hands
/// back the instant in UTC as seconds and nanoseconds. The contract names
/// the outcome.
#[verifier::external_body]
pub(crate) fn parse_with_format(text: &str, format: &str) -> (r: Result<Timestamp, chrono::ParseError>)
    ensures
        match r {
            Ok(t) => formatted_instant(text@, format@) == Some(t),
            Err(_) => formatted_instant(text@, format@) is None,
        },
{
    match chrono::DateTime::parse_from_str(text, format) {
        Ok(parsed) => {
            let utc = parsed.with_timezone(&chrono::Utc);
            Ok(Timestamp { secs: utc.timestamp(), nanos: utc.timestamp_subsec_nanos() })
        },
        Err(e) => Err(e),
    }
}

/// Builds the instant with `chrono::DateTime::from_timestamp` and writes it
/// with `to_rfc3339`. The contract names the outcome; there is none where
/// chrono cannot hold the instant.
#[verifier::external_body]
pub(crate) fn format_rfc3339(t: Timestamp) -> (r: Option<String>)
    ensures
        match r {
            Some(text) => rfc3339_text(t) == Some(text@),
            None => rfc3339_text(t) is None,
        },
{
    match chrono::DateTime::from_timestamp(t.secs, t.nanos) {
        Some(instant) => Some(instant.to_rfc3339()),
        None => None,
    }
}

/// Builds the instant with `chrono::DateTime::from_timestamp` and writes
/// what its `format` gives for the format text. The contract names the
/// outcome; there is none where chrono cannot hold the instant or reports
/// an error while writing.
#[verifier::external_body]
pub(crate) fn format_with(t: Timestamp, format: &str) -> (r: Option<String>)
    ensures
        match r {
            Some(text) => formatted_text(t, format@) == Some(text@),
            None => formatted_text(t, format@) is None,
        },
{
    let instant = chrono::DateTime::from_timestamp(t.secs, t.nanos)?;
    let mut text = String::new();
    match write!(text, "{}", instant.format(format)) {
        Ok(_) => Some(text),
        Err(_) => None,
    }
}

/// Calls `str::trim`. The contract names what is left.
#[verifier::external_body]
pub(crate) fn trim(text: &str) -> (r: &str)
    ensures
        r@ == trimmed(text@),
{
    text.trim()
}

} // verus!
