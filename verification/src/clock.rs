//! Instants and their written form.

use vstd::prelude::*;

verus! {

/// The first second that a date can name: the start of the year -9999.
pub const MIN_UNIX_SECONDS: i64 = -377705116800;

/// The last second that a date can name: the end of the year 9999.
pub const MAX_UNIX_SECONDS: i64 = 253402300799;

/// An instant: `nanosecond` nanoseconds after a whole second counted from the Unix epoch.
#[derive(Clone, Copy, Debug, PartialEq, Eq, Structural)]
pub struct Instant {
    /// Seconds since the Unix epoch, rounded down.
    pub unix_seconds: i64,
    /// Nanoseconds within the second.
    pub nanosecond: u32,
}

/// The date at a Unix timestamp; `None` outside the years that a date can name.
pub open spec fn unix_instant(seconds: int) -> Option<Instant> {
    if MIN_UNIX_SECONDS <= seconds <= MAX_UNIX_SECONDS {
        Some(Instant { unix_seconds: seconds as i64, nanosecond: 0 })
    } else {
        None
    }
}

/// Calls `time::OffsetDateTime::from_unix_timestamp`. The claim: it accepts exactly the seconds of
/// the years -9999 to 9999, and the date is that second.
#[verifier::external_body]
pub(crate) fn from_unix_timestamp(seconds: i64) -> (r: Option<Instant>)
    ensures
        r == unix_instant(seconds as int),
{
    time::OffsetDateTime::from_unix_timestamp(seconds).ok().map(|date| Instant {
        unix_seconds: date.unix_timestamp(),
        nanosecond: date.nanosecond(),
    })
}

/// The RFC 3339 form of an instant in UTC, or the text of the error where it has none.
pub uninterp spec fn rfc3339_text(instant: Instant) -> Result<Seq<char>, Seq<char>>;

/// The texts of a result.
pub open spec fn result_text(value: Result<String, String>) -> Result<Seq<char>, Seq<char>> {
    match value {
        Ok(text) => Ok(text@),
        Err(text) => Err(text@),
    }
}

/// Calls `time::OffsetDateTime::format` with `Rfc3339` on the date in UTC that
/// `from_unix_timestamp` and `replace_nanosecond` give. The claim: the text, or the error's text,
/// depends on the instant alone.
#[verifier::external_body]
pub(crate) fn format_rfc3339(instant: &Instant) -> (r: Result<String, String>)
    ensures
        result_text(r) == rfc3339_text(*instant),
{
    let date = time::OffsetDateTime::from_unix_timestamp(instant.unix_seconds)
        .and_then(|date| date.replace_nanosecond(instant.nanosecond))
        .map_err(|error| error.to_string())?;
    date.format(&time::format_description::well_known::Rfc3339).map_err(|error| error.to_string())
}

/// The instant that a text names in RFC 3339; `None` for any other text.
pub uninterp spec fn rfc3339_instant(text: Seq<char>) -> Option<Instant>;

/// Calls `time::OffsetDateTime::parse` with `Rfc3339`. The claim: the instant depends on the text
/// alone.
#[verifier::external_body]
pub(crate) fn parse_rfc3339(text: &str) -> (r: Option<Instant>)
    ensures
        r == rfc3339_instant(text@),
{
    time::OffsetDateTime::parse(text, &time::format_description::well_known::Rfc3339).ok().map(
        |date| Instant { unix_seconds: date.unix_timestamp(), nanosecond: date.nanosecond() },
    )
}

/// A Unix timestamp is a date exactly within the years that a date can name, and that date is the
/// very second.
pub proof fn law_timestamps_are_dates(seconds: int)
    ensures
        unix_instant(seconds) is Some == (-377705116800 <= seconds <= 253402300799),
        unix_instant(seconds) is Some ==> unix_instant(seconds)->0.unix_seconds == seconds
            && unix_instant(seconds)->0.nanosecond == 0,
{
}

} // verus!
