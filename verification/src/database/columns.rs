//! How times are kept in the columns of the database: as text after
//! RFC 3339, or, in older rows, as a whole number of seconds since 1970.

use vstd::prelude::*;
use crate::time::{parse_rfc3339, rfc3339_seconds, Timestamp};

verus! {

/// What `chrono::DateTime::to_rfc3339` writes for the UTC time at `secs`
/// seconds since 1970; `None` where `chrono` cannot represent that time.
pub uninterp spec fn rfc3339_text(secs: i64) -> Option<Seq<char>>;

/// Calls `chrono::DateTime::from_timestamp` and writes the result with
/// `to_rfc3339`. Trusted: the result is the named text for `secs`.
#[verifier::external_body]
pub(crate) fn format_rfc3339(secs: i64) -> (text: Option<String>)
    ensures
        text.deep_view() == rfc3339_text(secs),
{
    match chrono::DateTime::from_timestamp(secs, 0) {
        Some(instant) => Some(instant.to_rfc3339()),
        None => None,
    }
}

/// What a column holds.
#[derive(Debug, Clone)]
pub enum ColumnValue {
    Text { text: String },
    Integer { number: i64 },
    /// Anything else, or text that is not valid UTF-8.
    Other,
}

/// A column does not hold a time.
#[derive(Debug, Clone, Copy, PartialEq, Eq, Structural)]
pub struct InvalidColumnType;

/// A time as a column holds it.
#[derive(Debug, Clone, Copy, PartialEq, Eq, Structural)]
pub struct DateTimeUtc(pub Timestamp);

/// The time that a column holds: that of its text read after RFC 3339, or
/// its number taken as seconds since 1970.
pub open spec fn column_time(value: ColumnValue) -> Result<DateTimeUtc, InvalidColumnType> {
    match value {
        ColumnValue::Text { text } => match rfc3339_seconds(text@) {
            Some(secs) => Ok(DateTimeUtc(Timestamp { secs })),
            None => Err(InvalidColumnType),
        },
        ColumnValue::Integer { number } => Ok(DateTimeUtc(Timestamp { secs: number })),
        ColumnValue::Other => Err(InvalidColumnType),
    }
}

impl DateTimeUtc {
    /// Reads a time from a column.
    pub fn column_result(value: &ColumnValue) -> (time: Result<DateTimeUtc, InvalidColumnType>)
        ensures
            time == column_time(*value),
    {
        match value {
            ColumnValue::Text { text } => match parse_rfc3339(text.as_str()) {
                Some(secs) => Ok(DateTimeUtc(Timestamp { secs })),
                None => Err(InvalidColumnType),
            },
            ColumnValue::Integer { number } => Ok(DateTimeUtc(Timestamp { secs: *number })),
            ColumnValue::Other => Err(InvalidColumnType),
        }
    }

    /// The text to write into a column; none for a time beyond the
    /// calendar.
    pub fn to_sql(&self) -> (text: Option<String>)
        ensures
            text.deep_view() == rfc3339_text(self.0.secs),
    {
        format_rfc3339(self.0.secs)
    }
}

} // verus!
