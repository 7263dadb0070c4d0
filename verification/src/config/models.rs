//! The configuration as the service reads it.
//!
//! Several settings exist twice: as a number in a fixed unit, kept for older
//! configuration files, and as a timespan text. Where both are present the
//! text is used if it is a timespan, and the number otherwise.

use vstd::prelude::*;
use vstd::string::StringExecFns;
use crate::utils::text::{str_eq, to_lowercase, lowercase_text};
use crate::utils::timespan::{parse_timespan, timespan_seconds};

verus! {

/// How much the service logs.
#[derive(Debug, Clone, Copy, PartialEq, Eq, Structural)]
pub enum LogLevel {
    Error,
    Warn,
    Info,
    Debug,
    Trace,
}

/// The level that a lower-case name stands for.
pub open spec fn log_level_named(name: Seq<char>) -> Option<LogLevel> {
    if name == "error"@ {
        Some(LogLevel::Error)
    } else if name == "warn"@ || name == "warning"@ {
        Some(LogLevel::Warn)
    } else if name == "info"@ {
        Some(LogLevel::Info)
    } else if name == "debug"@ {
        Some(LogLevel::Debug)
    } else if name == "trace"@ {
        Some(LogLevel::Trace)
    } else {
        None
    }
}

impl LogLevel {
    /// The level with the given name, written in lower case.
    pub fn from_lowercase_name(name: &str) -> (level: Option<LogLevel>)
        ensures
            level == log_level_named(name@),
    {
        if str_eq(name, "error") {
            Some(LogLevel::Error)
        } else if str_eq(name, "warn") || str_eq(name, "warning") {
            Some(LogLevel::Warn)
        } else if str_eq(name, "info") {
            Some(LogLevel::Info)
        } else if str_eq(name, "debug") {
            Some(LogLevel::Debug)
        } else if str_eq(name, "trace") {
            Some(LogLevel::Trace)
        } else {
            None
        }
    }

    /// The level with the given name, in any case.
    pub fn from_name(name: &str) -> (level: Option<LogLevel>)
        ensures
            level == log_level_named(lowercase_text(name@)),
    {
        let lower = to_lowercase(name);
        LogLevel::from_lowercase_name(lower.as_str())
    }
}

/// What reading a level from a text gives: the level that the text names
/// in whatever case, or a message that quotes the text as it was given.
pub open spec fn level_read_from(s: Seq<char>) -> Result<LogLevel, Seq<char>> {
    match log_level_named(lowercase_text(s)) {
        Some(level) => Ok(level),
        None => Err("Unknown log level: "@ + s),
    }
}

impl std::str::FromStr for LogLevel {
    type Err = String;

    /// Reads a level from its name; the case of the name does not count.
    fn from_str(s: &str) -> (level: Result<Self, Self::Err>)
        ensures
            match level {
                Ok(found) => level_read_from(s@) == Ok::<LogLevel, Seq<char>>(found),
                Err(message) => level_read_from(s@) == Err::<LogLevel, Seq<char>>(message@),
            },
    {
        match LogLevel::from_name(s) {
            Some(level) => Ok(level),
            None => Err("Unknown log level: ".to_owned().concat(s)),
        }
    }
}

/// The whole configuration.
#[derive(Debug, Clone)]
pub struct Config {
    pub service: ServiceConfig,
    pub notification: NotificationConfig,
    pub reboot: RebootConfig,
    pub database: DatabaseConfig,
    pub logging: LoggingConfig,
    pub watchdog: WatchdogConfig,
}

/// How the service registers itself.
#[derive(Debug, Clone)]
pub struct ServiceConfig {
    pub name: String,
    pub display_name: String,
    pub description: String,
    /// Minutes between two readings of the configuration.
    pub config_refresh_minutes: u32,
}

/// How reminders are shown.
#[derive(Debug)]
pub struct NotificationConfig {
    /// The channels to use, where given; otherwise `show_toast` and
    /// `show_tray` decide.
    pub notification_type: Option<NotificationType>,
    pub show_toast: bool,
    pub show_tray: bool,
    pub show_balloon: bool,
    pub branding: BrandingConfig,
    pub messages: MessagesConfig,
    pub quiet_hours: QuietHoursConfig,
}

/// The channels on which a reminder is shown.
#[derive(Debug, Clone, Copy, PartialEq, Eq, Structural)]
pub enum NotificationType {
    Tray,
    Toast,
    Both,
}

/// Title, icon and company shown with a reminder.
#[derive(Debug)]
pub struct BrandingConfig {
    pub title: String,
    pub icon_path: String,
    pub company: String,
}

/// The message texts.
#[derive(Debug)]
pub struct MessagesConfig {
    pub reboot_required: String,
    pub reboot_recommended: String,
    pub reboot_scheduled: String,
    pub reboot_in_progress: String,
    pub reboot_cancelled: String,
    pub reboot_postponed: String,
    pub reboot_completed: String,
    pub action_required: String,
    pub action_recommended: String,
    pub action_not_required: String,
    pub action_not_available: String,
}

/// The hours of the day and days of the week in which no reminder is shown.
#[derive(Debug)]
pub struct QuietHoursConfig {
    pub enabled: bool,
    /// Start of the quiet hours, `HH:MM`.
    pub start_time: String,
    /// End of the quiet hours, `HH:MM`; before the start where the quiet
    /// hours run past midnight.
    pub end_time: String,
    /// The days on which quiet hours apply, Sunday being 0 and Saturday 6.
    pub days_of_week: Vec<u8>,
}

/// When a reboot counts as required, and how reminders escalate.
#[derive(Debug, Clone)]
pub struct RebootConfig {
    /// The escalation tiers, in ascending order of their lower bounds.
    pub timeframes: Vec<TimeframeConfig>,
    pub detection_methods: DetectionMethodsConfig,
    pub system_reboot: SystemRebootConfig,
}

/// One escalation tier: a bracket of hours since the reboot became required,
/// with the reminder interval and the deferrals offered in it.
#[derive(Debug, Clone)]
pub struct TimeframeConfig {
    pub min_hours: Option<u32>,
    /// `None` for a bracket without an upper end.
    pub max_hours: Option<u32>,
    pub min_timespan: Option<String>,
    pub max_timespan: Option<String>,
    pub reminder_interval_hours: Option<u32>,
    pub reminder_interval_minutes: Option<u32>,
    pub reminder_interval: Option<String>,
    /// The delays a user may choose from, as timespan texts.
    pub deferrals: Vec<String>,
}

/// Which checks for a pending reboot are made.
#[derive(Debug, Clone, Copy, PartialEq, Eq, Structural)]
pub struct DetectionMethodsConfig {
    pub windows_update: bool,
    pub sccm: bool,
    pub registry: bool,
    pub pending_file_operations: bool,
}

#[derive(Debug, Clone)]
pub struct DatabaseConfig {
    pub path: String,
}

#[derive(Debug, Clone)]
pub struct LoggingConfig {
    pub path: String,
    pub level: String,
    /// How many log files are kept.
    pub max_files: u32,
    /// The size of one log file in MB.
    pub max_size: u32,
}

/// How the watchdog supervises the service.
#[derive(Debug, Clone)]
pub struct WatchdogConfig {
    pub enabled: bool,
    pub check_interval_seconds: Option<u64>,
    pub check_interval: Option<String>,
    pub max_restart_attempts: u32,
    pub restart_delay_seconds: Option<u64>,
    pub restart_delay: Option<String>,
    pub service_path: String,
    pub service_name: String,
}

/// Whether and how a user may restart the machine from a reminder.
#[derive(Debug)]
pub struct SystemRebootConfig {
    pub enabled: bool,
    pub countdown_seconds: Option<u32>,
    pub countdown: Option<String>,
    pub show_confirmation: bool,
    pub confirmation_message: String,
    pub confirmation_title: String,
}

/// The seconds of a setting that is given as a timespan text; nothing
/// where there is no text or the text is no timespan.
pub open spec fn text_seconds(text: Option<String>) -> Option<nat> {
    match text {
        Some(t) => match timespan_seconds(t@) {
            Ok(secs) => Some(secs),
            Err(_) => None,
        },
        None => None,
    }
}

/// The seconds of a timespan text, where there is a text and it is a
/// timespan.
pub fn timespan_setting(text: &Option<String>) -> (seconds: Option<u64>)
    ensures
        match seconds {
            Some(s) => text_seconds(*text) == Some(s as nat),
            None => text_seconds(*text) is None,
        },
{
    match text {
        Some(t) => match parse_timespan(t.as_str()) {
            Ok(secs) => Some(secs),
            Err(_) => None,
        },
        None => None,
    }
}

impl Clone for BrandingConfig {
    fn clone(&self) -> (copy: Self)
        ensures
            copy == *self,
    {
        BrandingConfig {
            title: self.title.clone(),
            icon_path: self.icon_path.clone(),
            company: self.company.clone(),
        }
    }
}

impl Clone for MessagesConfig {
    fn clone(&self) -> (copy: Self)
        ensures
            copy == *self,
    {
        MessagesConfig {
            reboot_required: self.reboot_required.clone(),
            reboot_recommended: self.reboot_recommended.clone(),
            reboot_scheduled: self.reboot_scheduled.clone(),
            reboot_in_progress: self.reboot_in_progress.clone(),
            reboot_cancelled: self.reboot_cancelled.clone(),
            reboot_postponed: self.reboot_postponed.clone(),
            reboot_completed: self.reboot_completed.clone(),
            action_required: self.action_required.clone(),
            action_recommended: self.action_recommended.clone(),
            action_not_required: self.action_not_required.clone(),
            action_not_available: self.action_not_available.clone(),
        }
    }
}

impl QuietHoursConfig {
    /// Whether two settings say the same.
    pub open spec fn same_as(&self, other: &QuietHoursConfig) -> bool {
        &&& self.enabled == other.enabled
        &&& self.start_time == other.start_time
        &&& self.end_time == other.end_time
        &&& self.days_of_week@ == other.days_of_week@
    }
}

impl Clone for QuietHoursConfig {
    fn clone(&self) -> (copy: Self)
        ensures
            copy.same_as(self),
    {
        let days = self.days_of_week.clone();
        assert(days@ =~= self.days_of_week@);
        QuietHoursConfig {
            enabled: self.enabled,
            start_time: self.start_time.clone(),
            end_time: self.end_time.clone(),
            days_of_week: days,
        }
    }
}

impl NotificationConfig {
    /// Whether two settings say the same.
    pub open spec fn same_as(&self, other: &NotificationConfig) -> bool {
        &&& self.notification_type == other.notification_type
        &&& self.show_toast == other.show_toast
        &&& self.show_tray == other.show_tray
        &&& self.show_balloon == other.show_balloon
        &&& self.branding == other.branding
        &&& self.messages == other.messages
        &&& self.quiet_hours.same_as(&other.quiet_hours)
    }
}

impl Clone for NotificationConfig {
    fn clone(&self) -> (copy: Self)
        ensures
            copy.same_as(self),
    {
        NotificationConfig {
            notification_type: self.notification_type,
            show_toast: self.show_toast,
            show_tray: self.show_tray,
            show_balloon: self.show_balloon,
            branding: self.branding.clone(),
            messages: self.messages.clone(),
            quiet_hours: self.quiet_hours.clone(),
        }
    }
}

fn copy_text(text: &Option<String>) -> (copy: Option<String>)
    ensures
        copy == *text,
{
    match text {
        Some(t) => Some(t.clone()),
        None => None,
    }
}

impl Clone for SystemRebootConfig {
    fn clone(&self) -> (copy: Self)
        ensures
            copy == *self,
    {
        SystemRebootConfig {
            enabled: self.enabled,
            countdown_seconds: self.countdown_seconds,
            countdown: copy_text(&self.countdown),
            show_confirmation: self.show_confirmation,
            confirmation_message: self.confirmation_message.clone(),
            confirmation_title: self.confirmation_title.clone(),
        }
    }
}

impl Default for MessagesConfig {
    fn default() -> (messages: Self)
        ensures
            messages.reboot_required@.len() == 0,
            messages.reboot_recommended@.len() == 0,
            messages.reboot_scheduled@.len() == 0,
            messages.reboot_in_progress@.len() == 0,
            messages.reboot_cancelled@.len() == 0,
            messages.reboot_postponed@.len() == 0,
            messages.reboot_completed@.len() == 0,
            messages.action_required@.len() == 0,
            messages.action_recommended@.len() == 0,
            messages.action_not_required@.len() == 0,
            messages.action_not_available@.len() == 0,
    {
        MessagesConfig {
            reboot_required: String::new(),
            reboot_recommended: String::new(),
            reboot_scheduled: String::new(),
            reboot_in_progress: String::new(),
            reboot_cancelled: String::new(),
            reboot_postponed: String::new(),
            reboot_completed: String::new(),
            action_required: String::new(),
            action_recommended: String::new(),
            action_not_required: String::new(),
            action_not_available: String::new(),
        }
    }
}

impl Default for QuietHoursConfig {
    fn default() -> (quiet: Self)
        ensures
            !quiet.enabled,
            quiet.start_time@.len() == 0,
            quiet.end_time@.len() == 0,
            quiet.days_of_week@.len() == 0,
    {
        QuietHoursConfig {
            enabled: false,
            start_time: String::new(),
            end_time: String::new(),
            days_of_week: Vec::new(),
        }
    }
}

impl Default for DetectionMethodsConfig {
    fn default() -> (methods: Self)
        ensures
            methods == (DetectionMethodsConfig {
                windows_update: false,
                sccm: false,
                registry: false,
                pending_file_operations: false,
            }),
    {
        DetectionMethodsConfig {
            windows_update: false,
            sccm: false,
            registry: false,
            pending_file_operations: false,
        }
    }
}

impl Default for WatchdogConfig {
    fn default() -> (watchdog: Self)
        ensures
            !watchdog.enabled,
            watchdog.check_interval_seconds is None,
            watchdog.check_interval is None,
            watchdog.max_restart_attempts == 0,
            watchdog.restart_delay_seconds is None,
            watchdog.restart_delay is None,
            watchdog.service_path@.len() == 0,
            watchdog.service_name@.len() == 0,
    {
        WatchdogConfig {
            enabled: false,
            check_interval_seconds: None,
            check_interval: None,
            max_restart_attempts: 0,
            restart_delay_seconds: None,
            restart_delay: None,
            service_path: String::new(),
            service_name: String::new(),
        }
    }
}

/// Whether the watchdog runs where the configuration does not say.
pub fn default_watchdog_enabled() -> (enabled: bool)
    ensures
        enabled,
{
    true
}

/// Seconds between two health checks where the configuration does not say.
pub fn default_watchdog_check_interval() -> (seconds: u64)
    ensures
        seconds == 60,
{
    60
}

pub fn default_watchdog_check_interval_option() -> (seconds: Option<u64>)
    ensures
        seconds == Some(60u64),
{
    Some(60)
}

/// The number of restarts the watchdog tries where the configuration does not
/// say.
pub fn default_watchdog_max_restart_attempts() -> (attempts: u32)
    ensures
        attempts == 3,
{
    3
}

/// Seconds to wait after a restart where the configuration does not say.
pub fn default_watchdog_restart_delay() -> (seconds: u64)
    ensures
        seconds == 10,
{
    10
}

pub fn default_watchdog_restart_delay_option() -> (seconds: Option<u64>)
    ensures
        seconds == Some(10u64),
{
    Some(10)
}

/// The name of the supervised service where the configuration does not say.
pub fn default_watchdog_service_name() -> (name: String)
    ensures
        name@ == "RebootReminder"@,
{
    "RebootReminder".to_owned()
}

/// The settings for a restart by the user where the configuration has none.
pub fn default_system_reboot_config() -> (config: SystemRebootConfig)
    ensures
        config.enabled,
        config.countdown_seconds == Some(30u32),
        config.countdown.deep_view() == Some("30s"@),
        config.show_confirmation,
        config.confirmation_message@ == "The system needs to restart. Do you want to restart now?"@,
        config.confirmation_title@ == "System Restart Required"@,
{
    SystemRebootConfig {
        enabled: default_system_reboot_enabled(),
        countdown_seconds: default_system_reboot_countdown_option(),
        countdown: Some("30s".to_owned()),
        show_confirmation: default_system_reboot_confirmation(),
        confirmation_message: default_system_reboot_message(),
        confirmation_title: default_system_reboot_title(),
    }
}

pub fn default_system_reboot_enabled() -> (enabled: bool)
    ensures
        enabled,
{
    true
}

/// Seconds counted down before a restart where the configuration does not
/// say.
pub fn default_system_reboot_countdown() -> (seconds: u32)
    ensures
        seconds == 30,
{
    30
}

pub fn default_system_reboot_countdown_option() -> (seconds: Option<u32>)
    ensures
        seconds == Some(30u32),
{
    Some(30)
}

pub fn default_system_reboot_confirmation() -> (confirm: bool)
    ensures
        confirm,
{
    true
}

pub fn default_system_reboot_message() -> (message: String)
    ensures
        message@ == "The system needs to restart. Do you want to restart now?"@,
{
    "The system needs to restart. Do you want to restart now?".to_owned()
}

pub fn default_system_reboot_title() -> (title: String)
    ensures
        title@ == "System Restart Required"@,
{
    "System Restart Required".to_owned()
}

/// No explicit choice of channels.
pub fn default_notification_type() -> (kind: Option<NotificationType>)
    ensures
        kind is None,
{
    None
}

pub fn default_show_toast() -> (show: bool)
    ensures
        show,
{
    true
}

pub fn default_show_tray() -> (show: bool)
    ensures
        show,
{
    true
}

pub fn default_show_balloon() -> (show: bool)
    ensures
        !show,
{
    false
}

} // verus!
