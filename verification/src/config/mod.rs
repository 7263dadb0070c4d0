//! The configuration: its shape, its defaults, the rules it must meet, and
//! where it is read from.

pub mod expand;
pub mod models;
pub mod source;
pub mod summary;
pub mod validate;

pub use expand::expand_env_vars_in_config;
pub use models::{
    default_notification_type, default_show_balloon, default_show_toast, default_show_tray,
    default_system_reboot_config, BrandingConfig, Config, DatabaseConfig, DetectionMethodsConfig,
    LogLevel, LoggingConfig, MessagesConfig, NotificationConfig, NotificationType,
    QuietHoursConfig, RebootConfig, ServiceConfig, SystemRebootConfig, TimeframeConfig,
    WatchdogConfig,
};
pub use source::{is_url, is_xml};
pub use summary::format_config_summary;
pub use validate::{is_valid_duration_format, is_valid_time_format, validate_config, ConfigError};

use vstd::prelude::*;
use crate::reboot::scheduler::{
    reminder_interval, table_contiguous, tier_max_hours, tier_min_hours,
};
use crate::utils::text::decimal;
use crate::utils::timespan::{lemma_group_value, timespan_seconds, TimespanError};


verus! {

/// Whether `tier` is a tier from `min` to `max` hours, reminding every
/// `hours` hours or `minutes` minutes, all of these also given as the texts
/// `min_text`, `max_text` and `interval`, and offering `deferrals`.
pub open spec fn is_tier(
    tier: TimeframeConfig,
    min: u32,
    max: Option<u32>,
    min_text: Seq<char>,
    max_text: Option<Seq<char>>,
    hours: Option<u32>,
    minutes: Option<u32>,
    interval: Seq<char>,
    deferrals: Seq<Seq<char>>,
) -> bool {
    &&& tier.min_hours == Some(min)
    &&& tier.max_hours == max
    &&& tier.min_timespan.deep_view() == Some(min_text)
    &&& tier.max_timespan.deep_view() == max_text
    &&& tier.reminder_interval_hours == hours
    &&& tier.reminder_interval_minutes == minutes
    &&& tier.reminder_interval.deep_view() == Some(interval)
    &&& tier.deferrals.deep_view() == deferrals
}

/// The default messages.
pub open spec fn is_default_messages(messages: MessagesConfig) -> bool {
    &&& messages.reboot_required@
        == "Your computer requires a reboot to complete recent updates."@
    &&& messages.reboot_recommended@
        == "It is recommended to reboot your computer to apply recent updates."@
    &&& messages.reboot_scheduled@ == "Your computer is scheduled to reboot at %s."@
    &&& messages.reboot_in_progress@ == "Your computer will reboot in %s."@
    &&& messages.reboot_cancelled@ == "The scheduled reboot has been cancelled."@
    &&& messages.reboot_postponed@ == "The reboot has been postponed for %s."@
    &&& messages.reboot_completed@ == "Your computer has been successfully rebooted."@
    &&& messages.action_required@ == "Reboot is required. Click to schedule."@
    &&& messages.action_recommended@ == "Reboot is recommended. Click for options."@
    &&& messages.action_not_required@ == "No reboot is required at this time."@
    &&& messages.action_not_available@ == "Reboot options are not available at this time."@
}

/// The default configuration: reminders on both channels, quiet hours from
/// 22:00 to 08:00 on every day, three tiers without a gap between them that
/// remind every four hours from 24 hours on, every two hours from 48 hours on
/// and every half hour from 72 hours on, all four checks, and a watchdog
/// that is switched off.
pub open spec fn is_default_config(config: Config) -> bool {
    &&& config.service.name@ == "RebootReminder"@
    &&& config.service.display_name@ == "Reboot Reminder Service"@
    &&& config.service.description@ == "Provides notifications when system reboots are necessary"@
    &&& config.service.config_refresh_minutes == 60
    &&& config.notification.notification_type == Some(NotificationType::Both)
    &&& config.notification.show_toast
    &&& config.notification.show_tray
    &&& !config.notification.show_balloon
    &&& config.notification.branding.title@ == "Reboot Reminder"@
    &&& config.notification.branding.icon_path@ == "icon.ico"@
    &&& config.notification.branding.company@ == "IT Department"@
    &&& is_default_messages(config.notification.messages)
    &&& config.notification.quiet_hours.enabled
    &&& config.notification.quiet_hours.start_time@ == "22:00"@
    &&& config.notification.quiet_hours.end_time@ == "08:00"@
    &&& config.notification.quiet_hours.days_of_week@ == seq![0u8, 1u8, 2u8, 3u8, 4u8, 5u8, 6u8]
    &&& config.reboot.timeframes@.len() == 3
    &&& is_tier(
        config.reboot.timeframes@[0],
        24,
        Some(48),
        "24h"@,
        Some("48h"@),
        Some(4),
        None,
        "4h"@,
        seq!["1h"@, "4h"@, "8h"@, "24h"@],
    )
    &&& is_tier(
        config.reboot.timeframes@[1],
        48,
        Some(72),
        "48h"@,
        Some("72h"@),
        Some(2),
        None,
        "2h"@,
        seq!["1h"@, "2h"@, "4h"@],
    )
    &&& is_tier(
        config.reboot.timeframes@[2],
        72,
        None,
        "72h"@,
        None,
        None,
        Some(30),
        "30m"@,
        seq!["30m"@, "1h"@],
    )
    &&& config.reboot.detection_methods == (DetectionMethodsConfig {
        windows_update: true,
        sccm: true,
        registry: true,
        pending_file_operations: true,
    })
    &&& config.reboot.system_reboot.enabled
    &&& config.reboot.system_reboot.countdown_seconds == Some(30u32)
    &&& config.reboot.system_reboot.countdown.deep_view() == Some("30s"@)
    &&& config.reboot.system_reboot.show_confirmation
    &&& config.reboot.system_reboot.confirmation_message@
        == "The system needs to restart. Do you want to restart now?"@
    &&& config.reboot.system_reboot.confirmation_title@ == "System Restart Required"@
    &&& config.database.path@ == "rebootreminder.db"@
    &&& config.logging.path@ == "logs/rebootreminder.log"@
    &&& config.logging.level@ == "info"@
    &&& config.logging.max_files == 7
    &&& config.logging.max_size == 10
    &&& !config.watchdog.enabled
    &&& config.watchdog.check_interval_seconds is None
    &&& config.watchdog.check_interval is None
    &&& config.watchdog.max_restart_attempts == 0
    &&& config.watchdog.restart_delay_seconds is None
    &&& config.watchdog.restart_delay is None
    &&& config.watchdog.service_path@.len() == 0
    &&& config.watchdog.service_name@.len() == 0
}

fn texts2(a: &str, b: &str) -> (v: Vec<String>)
    ensures
        v.deep_view() == seq![a@, b@],
{
    let mut v: Vec<String> = Vec::new();
    v.push(a.to_owned());
    v.push(b.to_owned());
    assert(v.deep_view() =~= seq![a@, b@]);
    v
}

fn texts3(a: &str, b: &str, c: &str) -> (v: Vec<String>)
    ensures
        v.deep_view() == seq![a@, b@, c@],
{
    let mut v: Vec<String> = Vec::new();
    v.push(a.to_owned());
    v.push(b.to_owned());
    v.push(c.to_owned());
    assert(v.deep_view() =~= seq![a@, b@, c@]);
    v
}

fn texts4(a: &str, b: &str, c: &str, d: &str) -> (v: Vec<String>)
    ensures
        v.deep_view() == seq![a@, b@, c@, d@],
{
    let mut v: Vec<String> = Vec::new();
    v.push(a.to_owned());
    v.push(b.to_owned());
    v.push(c.to_owned());
    v.push(d.to_owned());
    assert(v.deep_view() =~= seq![a@, b@, c@, d@]);
    v
}

fn default_messages() -> (messages: MessagesConfig)
    ensures
        is_default_messages(messages),
{
    MessagesConfig {
        reboot_required: "Your computer requires a reboot to complete recent updates.".to_owned(),
        reboot_recommended: "It is recommended to reboot your computer to apply recent updates.".to_owned(),
        reboot_scheduled: "Your computer is scheduled to reboot at %s.".to_owned(),
        reboot_in_progress: "Your computer will reboot in %s.".to_owned(),
        reboot_cancelled: "The scheduled reboot has been cancelled.".to_owned(),
        reboot_postponed: "The reboot has been postponed for %s.".to_owned(),
        reboot_completed: "Your computer has been successfully rebooted.".to_owned(),
        action_required: "Reboot is required. Click to schedule.".to_owned(),
        action_recommended: "Reboot is recommended. Click for options.".to_owned(),
        action_not_required: "No reboot is required at this time.".to_owned(),
        action_not_available: "Reboot options are not available at this time.".to_owned(),
    }
}

fn every_day() -> (days: Vec<u8>)
    ensures
        days@ == seq![0u8, 1u8, 2u8, 3u8, 4u8, 5u8, 6u8],
{
    let mut days: Vec<u8> = Vec::new();
    days.push(0);
    days.push(1);
    days.push(2);
    days.push(3);
    days.push(4);
    days.push(5);
    days.push(6);
    assert(days@ =~= seq![0u8, 1u8, 2u8, 3u8, 4u8, 5u8, 6u8]);
    days
}

/// What the default tiers come to: brackets of 24 to 48 hours, of 48 to 72
/// hours, and of 72 hours on without an end, each starting where the one
/// before it ends, with reminders every four hours, every two hours and
/// every half hour.
pub open spec fn is_default_table(tiers: Seq<TimeframeConfig>) -> bool {
    &&& tiers.len() == 3
    &&& table_contiguous(tiers)
    &&& tier_min_hours(tiers[0]) == 24
    &&& tier_max_hours(tiers[0]) == Some(48nat)
    &&& tier_min_hours(tiers[1]) == 48
    &&& tier_max_hours(tiers[1]) == Some(72nat)
    &&& tier_min_hours(tiers[2]) == 72
    &&& tier_max_hours(tiers[2]) is None
    &&& reminder_interval(tiers[0]) == 4 * 3600
    &&& reminder_interval(tiers[1]) == 2 * 3600
    &&& reminder_interval(tiers[2]) == 30 * 60
    &&& forall|i: int| 0 <= i < 3 ==> (#[trigger] tiers[i]).deferrals@.len() > 0
}

/// The texts of the default tiers stand for the numbers beside them.
proof fn lemma_default_texts()
    ensures
        timespan_seconds("24h"@) == Ok::<nat, TimespanError>(24 * 3600),
        timespan_seconds("48h"@) == Ok::<nat, TimespanError>(48 * 3600),
        timespan_seconds("72h"@) == Ok::<nat, TimespanError>(72 * 3600),
        timespan_seconds("4h"@) == Ok::<nat, TimespanError>(4 * 3600),
        timespan_seconds("2h"@) == Ok::<nat, TimespanError>(2 * 3600),
        timespan_seconds("30m"@) == Ok::<nat, TimespanError>(30 * 60),
{
    reveal_strlit("24h");
    reveal_strlit("48h");
    reveal_strlit("72h");
    reveal_strlit("4h");
    reveal_strlit("2h");
    reveal_strlit("30m");
    reveal_with_fuel(decimal, 3);
    assert("24h"@ =~= decimal(24).push('h'));
    assert("48h"@ =~= decimal(48).push('h'));
    assert("72h"@ =~= decimal(72).push('h'));
    assert("4h"@ =~= decimal(4).push('h'));
    assert("2h"@ =~= decimal(2).push('h'));
    assert("30m"@ =~= decimal(30).push('m'));
    lemma_group_value(24, 'h');
    lemma_group_value(48, 'h');
    lemma_group_value(72, 'h');
    lemma_group_value(4, 'h');
    lemma_group_value(2, 'h');
    lemma_group_value(30, 'm');
}

/// The tiers of the default configuration form a table without gaps whose
/// last tier has no upper end.
pub proof fn lemma_default_table(config: Config)
    requires
        is_default_config(config),
    ensures
        is_default_table(config.reboot.timeframes@),
{
    lemma_default_texts();
    let tiers = config.reboot.timeframes@;
    assert(tiers[0].deferrals@.len() == tiers[0].deferrals.deep_view().len());
    assert(tiers[1].deferrals@.len() == tiers[1].deferrals.deep_view().len());
    assert(tiers[2].deferrals@.len() == tiers[2].deferrals.deep_view().len());
}

/// The default configuration.
pub fn default() -> (config: Config)
    ensures
        is_default_config(config),
        is_default_table(config.reboot.timeframes@),
{
    let mut timeframes: Vec<TimeframeConfig> = Vec::new();
    timeframes.push(
        TimeframeConfig {
            min_hours: Some(24),
            max_hours: Some(48),
            min_timespan: Some("24h".to_owned()),
            max_timespan: Some("48h".to_owned()),
            reminder_interval_hours: Some(4),
            reminder_interval_minutes: None,
            reminder_interval: Some("4h".to_owned()),
            deferrals: texts4("1h", "4h", "8h", "24h"),
        },
    );
    timeframes.push(
        TimeframeConfig {
            min_hours: Some(48),
            max_hours: Some(72),
            min_timespan: Some("48h".to_owned()),
            max_timespan: Some("72h".to_owned()),
            reminder_interval_hours: Some(2),
            reminder_interval_minutes: None,
            reminder_interval: Some("2h".to_owned()),
            deferrals: texts3("1h", "2h", "4h"),
        },
    );
    timeframes.push(
        TimeframeConfig {
            min_hours: Some(72),
            max_hours: None,
            min_timespan: Some("72h".to_owned()),
            max_timespan: None,
            reminder_interval_hours: None,
            reminder_interval_minutes: Some(30),
            reminder_interval: Some("30m".to_owned()),
            deferrals: texts2("30m", "1h"),
        },
    );
    let config = Config {
        service: ServiceConfig {
            name: "RebootReminder".to_owned(),
            display_name: "Reboot Reminder Service".to_owned(),
            description: "Provides notifications when system reboots are necessary".to_owned(),
            config_refresh_minutes: 60,
        },
        notification: NotificationConfig {
            notification_type: Some(NotificationType::Both),
            show_toast: true,
            show_tray: true,
            show_balloon: false,
            branding: BrandingConfig {
                title: "Reboot Reminder".to_owned(),
                icon_path: "icon.ico".to_owned(),
                company: "IT Department".to_owned(),
            },
            messages: default_messages(),
            quiet_hours: QuietHoursConfig {
                enabled: true,
                start_time: "22:00".to_owned(),
                end_time: "08:00".to_owned(),
                days_of_week: every_day(),
            },
        },
        reboot: RebootConfig {
            timeframes,
            detection_methods: DetectionMethodsConfig {
                windows_update: true,
                sccm: true,
                registry: true,
                pending_file_operations: true,
            },
            system_reboot: default_system_reboot_config(),
        },
        database: DatabaseConfig { path: "rebootreminder.db".to_owned() },
        logging: LoggingConfig {
            path: "logs/rebootreminder.log".to_owned(),
            level: "info".to_owned(),
            max_files: 7,
            max_size: 10,
        },
        watchdog: WatchdogConfig::default(),
    };
    proof {
        lemma_default_table(config);
    }
    config
}

} // verus!
