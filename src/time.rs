//! Moments in time, read and written as RFC 3339 text.
use vstd::prelude::*;
use vstd::string::StringExecFns;

verus! {

/// What `OffsetDateTime::parse(s, &Rfc3339)` makes of `s`: the moment as
/// Unix nanoseconds and UTC offset in seconds, or nothing when `s` is not
/// RFC 3339 text.
pub uninterp spec fn rfc3339_moment(s: Seq<char>) -> Option<(i128, i32)>;

/// What `OffsetDateTime::format(&Rfc3339)` writes for a moment given as Unix
/// nanoseconds and UTC offset in seconds, or nothing when the crate cannot
/// represent or format it.
pub uninterp spec fn rfc3339_text(moment: (i128, i32)) -> Option<Seq<char>>;

/// Relies on `time::OffsetDateTime::parse` with the `Rfc3339` format, read
/// back through `unix_timestamp_nanos` and `offset().whole_seconds()`.
#[verifier::external_body]
fn parse_rfc3339(s: &str) -> (r: Option<(i128, i32)>)
    ensures
        r == rfc3339_moment(s@),
{
    match ::time::OffsetDateTime::parse(s, &::time::format_description::well_known::Rfc3339) {
        Ok(t) => Some((t.unix_timestamp_nanos(), t.offset().whole_seconds())),
        Err(_) => None,
    }
}

/// Relies on `time::OffsetDateTime::format` with the `Rfc3339` format, on the
/// moment rebuilt by `from_unix_timestamp_nanos`, `UtcOffset::from_whole_seconds`
/// and `checked_to_offset`.
#[verifier::external_body]
fn format_rfc3339(moment: (i128, i32)) -> (r: Option<String>)
    ensures
        r matches Some(t) ==> rfc3339_text(moment) == Some(t@),
        r is None ==> rfc3339_text(moment) is None,
{
    let utc = ::time::OffsetDateTime::from_unix_timestamp_nanos(moment.0).ok()?;
    let offset = ::time::UtcOffset::from_whole_seconds(moment.1).ok()?;
    let t = utc.checked_to_offset(offset)?;
    t.format(&::time::format_description::well_known::Rfc3339).ok()
}

/// Relies on `time::OffsetDateTime::now_utc`: the current time as Unix
/// nanoseconds. Nothing is known of the value.
#[verifier::external_body]
fn now_unix_nanos() -> (r: i128) {
    ::time::OffsetDateTime::now_utc().unix_timestamp_nanos()
}

#[derive(Clone, Debug)]
pub enum Error {
    FailToDateParse(String),
    FailToDateFormat,
}

/// A moment in time: Unix nanoseconds and the UTC offset, in seconds, that
/// it is written with.
#[derive(Clone, Copy, Debug, PartialEq, Eq, Structural)]
pub struct TimeRfc3339 {
    pub unix_nanos: i128,
    pub offset_seconds: i32,
}

impl TimeRfc3339 {
    /// The moment as Unix nanoseconds and UTC offset in seconds.
    pub fn inner(&self) -> (r: (i128, i32))
        ensures
            r == (self.unix_nanos, self.offset_seconds),
    {
        (self.unix_nanos, self.offset_seconds)
    }

    /// The current time, in UTC.
    pub fn now_utc() -> (r: TimeRfc3339)
        ensures
            r.offset_seconds == 0,
    {
        TimeRfc3339 { unix_nanos: now_unix_nanos(), offset_seconds: 0 }
    }

    /// Reads RFC 3339 text; `FailToDateParse` with the text when it is not.
    pub fn parse_utc(moment: &str) -> (r: Result<TimeRfc3339, Error>)
        ensures
            rfc3339_moment(moment@) matches Some(m) ==> r == Ok::<TimeRfc3339, Error>(
                TimeRfc3339 { unix_nanos: m.0, offset_seconds: m.1 },
            ),
            rfc3339_moment(moment@) is None ==> (r matches Err(Error::FailToDateParse(s))
                && s@ == moment@),
    {
        match parse_rfc3339(moment) {
            Some((unix_nanos, offset_seconds)) => Ok(TimeRfc3339 { unix_nanos, offset_seconds }),
            None => Err(Error::FailToDateParse(String::from_str(moment))),
        }
    }

    /// Same as [`TimeRfc3339::parse_utc`].
    pub fn try_from(value: &str) -> (r: Result<TimeRfc3339, Error>)
        ensures
            rfc3339_moment(value@) matches Some(m) ==> r == Ok::<TimeRfc3339, Error>(
                TimeRfc3339 { unix_nanos: m.0, offset_seconds: m.1 },
            ),
            rfc3339_moment(value@) is None ==> (r matches Err(Error::FailToDateParse(s)) && s@
                == value@),
    {
        TimeRfc3339::parse_utc(value)
    }

    /// The moment as RFC 3339 text; `FailToDateFormat` when it cannot be written.
    pub fn format_time(&self) -> (r: Result<String, Error>)
        ensures
            rfc3339_text((self.unix_nanos, self.offset_seconds)) matches Some(t) ==> (r matches Ok(
                s,
            ) && s@ == t),
            rfc3339_text((self.unix_nanos, self.offset_seconds)) is None ==> r matches Err(
                Error::FailToDateFormat,
            ),
    {
        match format_rfc3339((self.unix_nanos, self.offset_seconds)) {
            Some(s) => Ok(s),
            None => Err(Error::FailToDateFormat),
        }
    }
}

} // verus!
