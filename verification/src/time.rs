//! Points in time as plain numbers, and the few calendar questions that are
//! put to `chrono`.

use vstd::prelude::*;

verus! {

/// A point in time: whole seconds since 1970-01-01 00:00:00 UTC.
#[derive(Debug, Clone, Copy, PartialEq, Eq, Structural, PartialOrd, Ord, Hash)]
pub struct Timestamp {
    pub secs: i64,
}

/// The quotient of `a` by a positive `b`, rounded toward zero.
pub open spec fn div_toward_zero(a: int, b: int) -> int {
    if a >= 0 {
        a / b
    } else {
        -((-a) / b)
    }
}

/// Whole hours from `earlier` to `later`, rounded toward zero; negative where
/// `later` lies before `earlier`.
pub open spec fn whole_hours_between(earlier: Timestamp, later: Timestamp) -> int {
    div_toward_zero(later.secs - earlier.secs, 3600)
}

impl Timestamp {
    pub fn from_secs(secs: i64) -> (t: Timestamp)
        ensures
            t.secs == secs,
    {
        Timestamp { secs }
    }

    pub fn is_before(&self, other: &Timestamp) -> (b: bool)
        ensures
            b == (self.secs < other.secs),
    {
        self.secs < other.secs
    }

    /// Seconds from `earlier` to `self`, clamped to what 64 bits hold.
    pub fn seconds_since(&self, earlier: &Timestamp) -> (d: i64)
        ensures
            d == clamp_i64(self.secs - earlier.secs),
    {
        let wide: i128 = self.secs as i128 - earlier.secs as i128;
        if wide > i64::MAX as i128 {
            i64::MAX
        } else if wide < i64::MIN as i128 {
            i64::MIN
        } else {
            wide as i64
        }
    }

    /// Whole hours from `earlier` to `self`, rounded toward zero.
    pub fn hours_since(&self, earlier: &Timestamp) -> (h: i64)
        ensures
            h == whole_hours_between(*earlier, *self),
    {
        let wide: i128 = self.secs as i128 - earlier.secs as i128;
        (wide / 3600) as i64
    }

    /// The time `secs` seconds after `self`, or the last time that 64 bits
    /// hold where that comes first.
    pub fn saturating_add_secs(&self, secs: u64) -> (t: Timestamp)
        ensures
            t == saturating_after(*self, secs as nat),
    {
        match self.secs.checked_add_unsigned(secs) {
            Some(sum) => Timestamp { secs: sum },
            None => Timestamp { secs: i64::MAX },
        }
    }

    /// The time `secs` seconds after `self`, where 64 bits hold it.
    pub fn checked_add_secs(&self, secs: u64) -> (t: Option<Timestamp>)
        ensures
            t == if self.secs + secs <= i64::MAX {
                Some(Timestamp { secs: (self.secs + secs) as i64 })
            } else {
                None::<Timestamp>
            },
    {
        match self.secs.checked_add_unsigned(secs) {
            Some(sum) => Some(Timestamp { secs: sum }),
            None => None,
        }
    }
}

/// The time `secs` seconds after `time`, or the last time that 64 bits hold
/// where that comes first.
pub open spec fn saturating_after(time: Timestamp, secs: nat) -> Timestamp {
    Timestamp {
        secs: if time.secs + secs <= i64::MAX {
            (time.secs + secs) as i64
        } else {
            i64::MAX
        },
    }
}

pub open spec fn clamp_i64(n: int) -> int {
    if n > i64::MAX {
        i64::MAX as int
    } else if n < i64::MIN {
        i64::MIN as int
    } else {
        n
    }
}

/// What `chrono::NaiveTime::parse_from_str` reads from a text under the
/// format `%H:%M`, as seconds from midnight; `None` where it rejects the
/// text.
pub uninterp spec fn clock_text_seconds(text: Seq<char>) -> Option<u32>;

/// What `chrono::DateTime::parse_from_rfc3339` reads from a text, as seconds
/// since the epoch; `None` where it rejects the text.
pub uninterp spec fn rfc3339_seconds(text: Seq<char>) -> Option<i64>;

/// What `chrono` writes for the UTC date and time at `secs` seconds since the
/// epoch under the format `%Y-%m-%d %H:%M:%S`; `None` where `chrono` cannot
/// represent that time.
pub uninterp spec fn utc_text(secs: i64) -> Option<Seq<char>>;

/// Calls `chrono::NaiveTime::parse_from_str` with the format `%H:%M` and
/// hands out the parsed time as `num_seconds_from_midnight`. Trusted: the
/// result is the named reading of the text.
#[verifier::external_body]
pub(crate) fn parse_clock_text(text: &str) -> (seconds: Option<u32>)
    ensures
        seconds == clock_text_seconds(text@),
{
    match chrono::NaiveTime::parse_from_str(text, "%H:%M") {
        Ok(time) => Some(chrono::Timelike::num_seconds_from_midnight(&time)),
        Err(_) => None,
    }
}

/// Calls `chrono::DateTime::parse_from_rfc3339` and hands out the parsed
/// instant as `timestamp`. Trusted: the result is the named reading of the
/// text.
#[verifier::external_body]
pub(crate) fn parse_rfc3339(text: &str) -> (seconds: Option<i64>)
    ensures
        seconds == rfc3339_seconds(text@),
{
    match chrono::DateTime::parse_from_rfc3339(text) {
        Ok(instant) => Some(instant.timestamp()),
        Err(_) => None,
    }
}

/// Calls `chrono::DateTime::from_timestamp` and formats the result with
/// `%Y-%m-%d %H:%M:%S`. Trusted: the result is the named text for `secs`.
#[verifier::external_body]
pub(crate) fn format_utc(secs: i64) -> (text: Option<String>)
    ensures
        text.deep_view() == utc_text(secs),
{
    match chrono::DateTime::from_timestamp(secs, 0) {
        Some(instant) => Some(instant.format("%Y-%m-%d %H:%M:%S").to_string()),
        None => None,
    }
}

/// Reads the clock with `chrono::Utc::now`. Trusted; nothing is claimed of
/// the time that comes back.
#[verifier::external_body]
pub(crate) fn utc_now() -> (now: Timestamp) {
    Timestamp { secs: chrono::Utc::now().timestamp() }
}

/// The day of the week of `chrono::Utc::now`, as `num_days_from_sunday`
/// counts it. Trusted: the number is one of the seven days.
#[verifier::external_body]
pub(crate) fn utc_weekday_now() -> (day: u32)
    ensures
        day < 7,
{
    chrono::Datelike::weekday(&chrono::Utc::now()).num_days_from_sunday()
}

/// The time of day of `chrono::Local::now`, as `num_seconds_from_midnight`.
/// Trusted; nothing is claimed of the number.
#[verifier::external_body]
pub(crate) fn local_seconds_of_day_now() -> (seconds: u32) {
    chrono::Timelike::num_seconds_from_midnight(&chrono::Local::now().time())
}

} // verus!
