//! The rules that a configuration must meet before the service runs on it.
//!
//! The rules are checked in a fixed order, and the first one that is broken
//! is reported.

use vstd::prelude::*;
use crate::config::models::{Config, QuietHoursConfig, TimeframeConfig};
use crate::utils::text::{
    chars_of, is_digit, lowercase_text, parse_u32_in, str_eq, to_lowercase, trim, trimmed_text,
    u32_text_value,
};
use crate::utils::timespan::{parse_timespan, timespan_seconds};

verus! {

/// The first rule that a configuration breaks.
#[derive(Debug, Clone, Copy, PartialEq, Eq, Structural)]
pub enum ConfigError {
    EmptyServiceName,
    EmptyServiceDisplayName,
    ZeroConfigRefresh,
    EmptyNotificationTitle,
    EmptyIconPath,
    /// The start of the quiet hours is no time of day.
    InvalidQuietHoursStart,
    /// The end of the quiet hours is no time of day.
    InvalidQuietHoursEnd,
    /// A day of the quiet hours is not one of 0 to 6.
    InvalidDayOfWeek { day: u8 },
    NoTimeframes,
    /// The lower bound of the tier at `index` is no timespan.
    InvalidMinTimespan { index: usize },
    /// The upper bound of the tier at `index` is no timespan.
    InvalidMaxTimespan { index: usize },
    /// The lower bound of the tier at `index` is not below its upper bound.
    EmptyTimeframe { index: usize },
    /// The tier at `index` has no reminder interval in any form.
    MissingReminderInterval { index: usize },
    /// The tier at `index` offers no deferral.
    NoDeferrals { index: usize },
    /// A deferral of the tier at `index` is not a positive number of hours
    /// or minutes.
    InvalidDeferral { index: usize },
    EmptyDatabasePath,
    EmptyLoggingPath,
    ZeroLogFiles,
    ZeroLogSize,
    InvalidLogLevel,
}

/// Whether a text is a time of day: hours below 24 and minutes below 60,
/// each an unsigned decimal number, with a colon between them.
pub open spec fn is_time_text(s: Seq<char>) -> bool {
    exists|i: int|
        0 <= i < s.len() && s[i] == ':' && (#[trigger] u32_text_value(s.subrange(0, i))) is Some
            && u32_text_value(s.subrange(0, i)).unwrap() < 24 && u32_text_value(
            s.subrange(i + 1, s.len() as int),
        ) is Some && u32_text_value(s.subrange(i + 1, s.len() as int)).unwrap() < 60
}

/// A text with a colon in it is no unsigned decimal number.
proof fn lemma_number_has_no_colon(s: Seq<char>, k: int)
    requires
        0 <= k < s.len(),
        s[k] == ':',
    ensures
        u32_text_value(s) is None,
{
    if s[0] == '+' {
        let body = s.subrange(1, s.len() as int);
        assert(k >= 1);
        assert(body[k - 1] == ':');
        assert(!is_digit(body[k - 1]));
    } else {
        assert(!is_digit(s[k]));
    }
}

/// Whether `s` is a time of day, written `HH:MM`.
pub fn is_valid_time_format(s: &str) -> (valid: bool)
    ensures
        valid == is_time_text(s@),
{
    let chars = chars_of(s);
    let n = chars.len();
    let mut i: usize = 0;
    while i < n && chars[i] != ':'
        invariant
            chars@ == s@,
            n == chars.len(),
            i <= n,
            forall|k: int| 0 <= k < i ==> chars@[k] != ':',
        decreases n - i,
    {
        i += 1;
    }
    if i == n {
        proof {
            assert forall|j: int| 0 <= j < s@.len() implies s@[j] != ':' by {}
        }
        return false;
    }
    let hours = parse_u32_in(&chars, 0, i);
    let minutes = parse_u32_in(&chars, i + 1, n);
    let valid = match (hours, minutes) {
        (Some(h), Some(m)) => h < 24 && m < 60,
        _ => false,
    };
    proof {
        if !valid {
            assert forall|j: int|
                0 <= j < s@.len() && s@[j] == ':' && j != i implies u32_text_value(
                s@.subrange(0, j),
            ) is None by {
                assert(j > i);
                assert(s@.subrange(0, j)[i as int] == ':');
                lemma_number_has_no_colon(s@.subrange(0, j), i as int);
            }
        }
    }
    valid
}

/// Whether a text, trimmed and in lower case, is a deferral: a positive
/// unsigned decimal number followed by `h` or `m`.
pub open spec fn is_duration_text(s: Seq<char>) -> bool {
    &&& s.len() > 0
    &&& s.last() == 'h' || s.last() == 'm'
    &&& u32_text_value(s.drop_last()) is Some
    &&& u32_text_value(s.drop_last()).unwrap() > 0
}

/// Whether a text that is trimmed and in lower case is a deferral.
pub fn is_normalized_duration(s: &str) -> (valid: bool)
    ensures
        valid == is_duration_text(s@),
{
    let chars = chars_of(s);
    let n = chars.len();
    if n == 0 {
        return false;
    }
    let unit = chars[n - 1];
    if unit != 'h' && unit != 'm' {
        return false;
    }
    proof {
        assert(s@.drop_last() == chars@.subrange(0, n - 1));
    }
    match parse_u32_in(&chars, 0, n - 1) {
        Some(count) => count > 0,
        None => false,
    }
}

/// Whether `s` is a deferral such as `1h` or `30m`; white space around it
/// and the case of the unit do not count.
pub fn is_valid_duration_format(s: &str) -> (valid: bool)
    ensures
        valid == is_duration_text(lowercase_text(trimmed_text(s@))),
{
    let normalized = to_lowercase(trim(s));
    is_normalized_duration(normalized.as_str())
}

/// The first day of the quiet hours that is not one of 0 to 6, from the
/// index `from` on.
pub open spec fn first_invalid_day(days: Seq<u8>, from: int) -> Option<u8>
    decreases days.len() - from,
{
    if from < 0 || from >= days.len() {
        None
    } else if days[from] > 6 {
        Some(days[from])
    } else {
        first_invalid_day(days, from + 1)
    }
}

/// The rule that the quiet hours break, if they break one. Quiet hours that
/// are switched off break none.
pub open spec fn quiet_hours_error(quiet: QuietHoursConfig) -> Option<ConfigError> {
    if !quiet.enabled {
        None
    } else if !is_time_text(quiet.start_time@) {
        Some(ConfigError::InvalidQuietHoursStart)
    } else if !is_time_text(quiet.end_time@) {
        Some(ConfigError::InvalidQuietHoursEnd)
    } else {
        match first_invalid_day(quiet.days_of_week@, 0) {
            Some(day) => Some(ConfigError::InvalidDayOfWeek { day }),
            None => None,
        }
    }
}

#[verifier::loop_isolation(false)]
fn check_quiet_hours(quiet: &QuietHoursConfig) -> (error: Option<ConfigError>)
    ensures
        error == quiet_hours_error(*quiet),
{
    if !quiet.enabled {
        return None;
    }
    if !is_valid_time_format(quiet.start_time.as_str()) {
        return Some(ConfigError::InvalidQuietHoursStart);
    }
    if !is_valid_time_format(quiet.end_time.as_str()) {
        return Some(ConfigError::InvalidQuietHoursEnd);
    }
    let n = quiet.days_of_week.len();
    let mut i: usize = 0;
    while i < n
        invariant
            n == quiet.days_of_week@.len(),
            i <= n,
            first_invalid_day(quiet.days_of_week@, 0) == first_invalid_day(
                quiet.days_of_week@,
                i as int,
            ),
        decreases n - i,
    {
        let day = quiet.days_of_week[i];
        if day > 6 {
            return Some(ConfigError::InvalidDayOfWeek { day });
        }
        i += 1;
    }
    None
}

/// The first deferral from the index `from` on that is none, if there is
/// one.
pub open spec fn has_invalid_deferral(deferrals: Seq<String>, from: int) -> bool
    decreases deferrals.len() - from,
{
    if from < 0 || from >= deferrals.len() {
        false
    } else {
        !is_duration_text(lowercase_text(trimmed_text(deferrals[from]@))) || has_invalid_deferral(
            deferrals,
            from + 1,
        )
    }
}

/// The rule that the tier at `index` breaks, if it breaks one. A bound that
/// is given as a text must be a timespan; where a tier has both of its
/// bounds, in whatever form, the lower must be below the upper.
pub open spec fn timeframe_error(tier: TimeframeConfig, index: usize) -> Option<ConfigError> {
    let min_text = match tier.min_timespan {
        Some(text) => Some(timespan_seconds(text@)),
        None => None,
    };
    let max_text = match tier.max_timespan {
        Some(text) => Some(timespan_seconds(text@)),
        None => None,
    };
    if min_text is Some && min_text.unwrap() is Err {
        Some(ConfigError::InvalidMinTimespan { index })
    } else if max_text is Some && max_text.unwrap() is Err {
        Some(ConfigError::InvalidMaxTimespan { index })
    } else {
        let min: nat = match min_text {
            Some(secs) => secs.unwrap() / 3600,
            None => match tier.min_hours {
                Some(hours) => hours as nat,
                None => 0,
            },
        };
        let max: Option<nat> = match max_text {
            Some(secs) => Some(secs.unwrap() / 3600),
            None => match tier.max_hours {
                Some(hours) => Some(hours as nat),
                None => None,
            },
        };
        if max is Some && min >= max.unwrap() {
            Some(ConfigError::EmptyTimeframe { index })
        } else if tier.reminder_interval is None && tier.reminder_interval_hours is None
            && tier.reminder_interval_minutes is None {
            Some(ConfigError::MissingReminderInterval { index })
        } else if tier.deferrals@.len() == 0 {
            Some(ConfigError::NoDeferrals { index })
        } else if has_invalid_deferral(tier.deferrals@, 0) {
            Some(ConfigError::InvalidDeferral { index })
        } else {
            None
        }
    }
}

#[verifier::loop_isolation(false)]
fn check_timeframe(tier: &TimeframeConfig, index: usize) -> (error: Option<ConfigError>)
    ensures
        error == timeframe_error(*tier, index),
{
    let min: u64 = match &tier.min_timespan {
        Some(text) => match parse_timespan(text.as_str()) {
            Ok(secs) => secs / 3600,
            Err(_) => {
                return Some(ConfigError::InvalidMinTimespan { index });
            },
        },
        None => match tier.min_hours {
            Some(hours) => hours as u64,
            None => 0,
        },
    };
    let max: Option<u64> = match &tier.max_timespan {
        Some(text) => match parse_timespan(text.as_str()) {
            Ok(secs) => Some(secs / 3600),
            Err(_) => {
                return Some(ConfigError::InvalidMaxTimespan { index });
            },
        },
        None => match tier.max_hours {
            Some(hours) => Some(hours as u64),
            None => None,
        },
    };
    match max {
        Some(upper) => {
            if min >= upper {
                return Some(ConfigError::EmptyTimeframe { index });
            }
        },
        None => {},
    }
    if tier.reminder_interval.is_none() && tier.reminder_interval_hours.is_none()
        && tier.reminder_interval_minutes.is_none() {
        return Some(ConfigError::MissingReminderInterval { index });
    }
    let n = tier.deferrals.len();
    if n == 0 {
        return Some(ConfigError::NoDeferrals { index });
    }
    let mut i: usize = 0;
    while i < n
        invariant
            n == tier.deferrals@.len(),
            i <= n,
            has_invalid_deferral(tier.deferrals@, 0) == has_invalid_deferral(
                tier.deferrals@,
                i as int,
            ),
        decreases n - i,
    {
        if !is_valid_duration_format(tier.deferrals[i].as_str()) {
            return Some(ConfigError::InvalidDeferral { index });
        }
        i += 1;
    }
    None
}

/// The rule that the first faulty tier from the index `from` on breaks.
pub open spec fn timeframes_error(tiers: Seq<TimeframeConfig>, from: int) -> Option<ConfigError>
    decreases tiers.len() - from,
{
    if from < 0 || from >= tiers.len() {
        None
    } else {
        match timeframe_error(tiers[from], from as usize) {
            Some(e) => Some(e),
            None => timeframes_error(tiers, from + 1),
        }
    }
}

/// Whether a text in lower case names a log level.
pub open spec fn is_log_level_name(name: Seq<char>) -> bool {
    name == "trace"@ || name == "debug"@ || name == "info"@ || name == "warn"@ || name == "error"@
}

/// Whether `name`, a text in lower case, names a log level.
pub fn is_known_log_level(name: &str) -> (known: bool)
    ensures
        known == is_log_level_name(name@),
{
    str_eq(name, "trace") || str_eq(name, "debug") || str_eq(name, "info") || str_eq(name, "warn")
        || str_eq(name, "error")
}

/// The first rule that `config` breaks, in the order in which the rules are
/// checked: the service, the notifications, the quiet hours, the tiers one
/// after the other, the database and the logging.
pub open spec fn config_error(config: Config) -> Option<ConfigError> {
    if config.service.name@.len() == 0 {
        Some(ConfigError::EmptyServiceName)
    } else if config.service.display_name@.len() == 0 {
        Some(ConfigError::EmptyServiceDisplayName)
    } else if config.service.config_refresh_minutes == 0 {
        Some(ConfigError::ZeroConfigRefresh)
    } else if config.notification.branding.title@.len() == 0 {
        Some(ConfigError::EmptyNotificationTitle)
    } else if config.notification.branding.icon_path@.len() == 0 {
        Some(ConfigError::EmptyIconPath)
    } else if quiet_hours_error(config.notification.quiet_hours) is Some {
        quiet_hours_error(config.notification.quiet_hours)
    } else if config.reboot.timeframes@.len() == 0 {
        Some(ConfigError::NoTimeframes)
    } else if timeframes_error(config.reboot.timeframes@, 0) is Some {
        timeframes_error(config.reboot.timeframes@, 0)
    } else if config.database.path@.len() == 0 {
        Some(ConfigError::EmptyDatabasePath)
    } else if config.logging.path@.len() == 0 {
        Some(ConfigError::EmptyLoggingPath)
    } else if config.logging.max_files == 0 {
        Some(ConfigError::ZeroLogFiles)
    } else if config.logging.max_size == 0 {
        Some(ConfigError::ZeroLogSize)
    } else if !is_log_level_name(lowercase_text(config.logging.level@)) {
        Some(ConfigError::InvalidLogLevel)
    } else {
        None
    }
}

/// Checks `config` against the rules, and reports the first that it breaks.
#[verifier::loop_isolation(false)]
pub fn validate_config(config: &Config) -> (result: Result<(), ConfigError>)
    ensures
        result == match config_error(*config) {
            Some(e) => Err::<(), ConfigError>(e),
            None => Ok(()),
        },
        result is Ok ==> config.reboot.timeframes@.len() > 0,
{
    if config.service.name.as_str().is_empty() {
        return Err(ConfigError::EmptyServiceName);
    }
    if config.service.display_name.as_str().is_empty() {
        return Err(ConfigError::EmptyServiceDisplayName);
    }
    if config.service.config_refresh_minutes == 0 {
        return Err(ConfigError::ZeroConfigRefresh);
    }
    if config.notification.branding.title.as_str().is_empty() {
        return Err(ConfigError::EmptyNotificationTitle);
    }
    if config.notification.branding.icon_path.as_str().is_empty() {
        return Err(ConfigError::EmptyIconPath);
    }
    match check_quiet_hours(&config.notification.quiet_hours) {
        Some(e) => {
            return Err(e);
        },
        None => {},
    }
    let n = config.reboot.timeframes.len();
    if n == 0 {
        return Err(ConfigError::NoTimeframes);
    }
    let mut i: usize = 0;
    while i < n
        invariant
            n == config.reboot.timeframes@.len(),
            i <= n,
            timeframes_error(config.reboot.timeframes@, 0) == timeframes_error(
                config.reboot.timeframes@,
                i as int,
            ),
        decreases n - i,
    {
        match check_timeframe(&config.reboot.timeframes[i], i) {
            Some(e) => {
                return Err(e);
            },
            None => {},
        }
        i += 1;
    }
    if config.database.path.as_str().is_empty() {
        return Err(ConfigError::EmptyDatabasePath);
    }
    if config.logging.path.as_str().is_empty() {
        return Err(ConfigError::EmptyLoggingPath);
    }
    if config.logging.max_files == 0 {
        return Err(ConfigError::ZeroLogFiles);
    }
    if config.logging.max_size == 0 {
        return Err(ConfigError::ZeroLogSize);
    }
    let level = to_lowercase(config.logging.level.as_str());
    if !is_known_log_level(level.as_str()) {
        return Err(ConfigError::InvalidLogLevel);
    }
    Ok(())
}

} // verus!
