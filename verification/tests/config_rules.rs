use rebootreminder::config::expand::expand_env_vars_in_config;
use rebootreminder::config::models::{
    default_system_reboot_config, BrandingConfig, Config, DatabaseConfig, DetectionMethodsConfig,
    LogLevel, LoggingConfig, MessagesConfig, NotificationConfig, NotificationType,
    QuietHoursConfig, RebootConfig, ServiceConfig, WatchdogConfig,
};
use rebootreminder::config::validate::{
    is_valid_duration_format, is_valid_time_format, validate_config, ConfigError,
};

fn expand_with_test_values(text: &String) -> Result<String, String> {
    Ok(text
        .replace("%PROGRAMDATA%", "C:\\ProgramData")
        .replace("%TEMP%", "C:\\Temp")
        .replace("%WINDIR%", "C:\\Windows")
        .replace("%PROGRAMFILES%", "C:\\Program Files"))
}

fn test_config() -> Config {
    Config {
        service: ServiceConfig {
            name: "TestService".to_string(),
            display_name: "Test Service".to_string(),
            description: "Test service description".to_string(),
            config_refresh_minutes: 60,
        },
        notification: NotificationConfig {
            notification_type: Some(NotificationType::Both),
            show_toast: true,
            show_tray: true,
            show_balloon: false,
            branding: BrandingConfig {
                title: "Test Title".to_string(),
                icon_path: "%WINDIR%\\System32\\test.ico".to_string(),
                company: "Test Company".to_string(),
            },
            messages: MessagesConfig::default(),
            quiet_hours: QuietHoursConfig::default(),
        },
        reboot: RebootConfig {
            timeframes: vec![],
            detection_methods: DetectionMethodsConfig::default(),
            system_reboot: default_system_reboot_config(),
        },
        database: DatabaseConfig { path: "%PROGRAMDATA%\\TestApp\\test.db".to_string() },
        logging: LoggingConfig {
            path: "%TEMP%\\TestApp\\logs\\test.log".to_string(),
            level: "info".to_string(),
            max_files: 5,
            max_size: 10,
        },
        watchdog: WatchdogConfig {
            enabled: true,
            check_interval_seconds: Some(60),
            check_interval: Some("1m".to_string()),
            max_restart_attempts: 3,
            restart_delay_seconds: Some(10),
            restart_delay: Some("10s".to_string()),
            service_path: "%PROGRAMFILES%\\TestApp\\test.exe".to_string(),
            service_name: "TestService".to_string(),
        },
    }
}

#[test]
fn test_expand_env_vars_in_config() {
    // Create a test configuration with environment variables
    let mut config = test_config();

    // Expand environment variables
    let result = expand_env_vars_in_config(&mut config, expand_with_test_values);
    assert!(result.is_ok());

    // Check that environment variables were expanded
    assert!(!config.database.path.contains("%PROGRAMDATA%"));
    assert!(!config.logging.path.contains("%TEMP%"));
    assert!(!config.notification.branding.icon_path.contains("%WINDIR%"));
    assert!(!config.watchdog.service_path.contains("%PROGRAMFILES%"));
}

#[test]
fn expansion_replaces_exactly_the_paths_with_a_percent_sign() {
    let mut config = test_config();
    config.logging.path = "plain.log".to_string();
    let mut asked: Vec<String> = Vec::new();
    let asked_cell = std::cell::RefCell::new(&mut asked);
    let result = expand_env_vars_in_config(&mut config, |text: &String| {
        asked_cell.borrow_mut().push(text.clone());
        Ok::<String, String>(format!("<{}>", text))
    });
    assert_eq!(result, Ok(()));
    assert_eq!(config.database.path, "<%PROGRAMDATA%\\TestApp\\test.db>");
    assert_eq!(config.logging.path, "plain.log");
    assert_eq!(config.notification.branding.icon_path, "<%WINDIR%\\System32\\test.ico>");
    assert_eq!(config.watchdog.service_path, "<%PROGRAMFILES%\\TestApp\\test.exe>");
    assert_eq!(
        asked,
        vec![
            "%PROGRAMDATA%\\TestApp\\test.db".to_string(),
            "%WINDIR%\\System32\\test.ico".to_string(),
            "%PROGRAMFILES%\\TestApp\\test.exe".to_string(),
        ]
    );
}

#[test]
fn expansion_stops_at_the_first_failure() {
    let mut config = test_config();
    let result = expand_env_vars_in_config(&mut config, |text: &String| {
        if text.contains("%TEMP%") {
            Err("no such variable".to_string())
        } else {
            Ok(text.replace('%', ""))
        }
    });
    assert_eq!(result, Err("no such variable".to_string()));
    assert_eq!(config.database.path, "PROGRAMDATA\\TestApp\\test.db");
    assert_eq!(config.logging.path, "%TEMP%\\TestApp\\logs\\test.log");
    assert_eq!(config.notification.branding.icon_path, "%WINDIR%\\System32\\test.ico");
    assert_eq!(config.watchdog.service_path, "%PROGRAMFILES%\\TestApp\\test.exe");
}

#[test]
fn test_is_valid_time_format() {
    assert!(is_valid_time_format("12:30"));
    assert!(is_valid_time_format("00:00"));
    assert!(is_valid_time_format("23:59"));

    assert!(!is_valid_time_format("24:00"));
    assert!(!is_valid_time_format("12:60"));
    assert!(!is_valid_time_format("12:30:00"));
    assert!(!is_valid_time_format("12-30"));
    assert!(!is_valid_time_format("abc"));
}

#[test]
fn time_format_reads_numbers_as_the_standard_library_does() {
    for text in ["7:5", "+7:+5", "007:005", ":5", "5:", ":", "", " 7:05", "7:05 ", "-7:05", "7:0x5"] {
        let expected = {
            let parts: Vec<&str> = text.split(':').collect();
            parts.len() == 2
                && match (parts[0].parse::<u32>(), parts[1].parse::<u32>()) {
                    (Ok(h), Ok(m)) => h < 24 && m < 60,
                    _ => false,
                }
        };
        assert_eq!(is_valid_time_format(text), expected, "{:?}", text);
    }
    assert!(!is_valid_time_format("4294967296:00"));
}

#[test]
fn test_is_valid_duration_format() {
    assert!(is_valid_duration_format("1h"));
    assert!(is_valid_duration_format("24h"));
    assert!(is_valid_duration_format("30m"));
    assert!(is_valid_duration_format("120m"));

    assert!(!is_valid_duration_format("0h"));
    assert!(!is_valid_duration_format("0m"));
    assert!(!is_valid_duration_format("1d"));
    assert!(!is_valid_duration_format("abc"));
}

#[test]
fn duration_format_ignores_case_and_surrounding_space() {
    assert!(is_valid_duration_format(" 2H "));
    assert!(is_valid_duration_format("\t15M\n"));
    assert!(is_valid_duration_format("+3h"));
    assert!(!is_valid_duration_format("2 h"));
    assert!(!is_valid_duration_format("h"));
    assert!(!is_valid_duration_format(""));
    assert!(!is_valid_duration_format("30s"));
    assert!(!is_valid_duration_format("4294967296h"));
    assert!(is_valid_duration_format("4294967295m"));
}

#[test]
fn the_default_configuration_is_valid() {
    let config = rebootreminder::config::default();
    assert_eq!(validate_config(&config), Ok(()));
    assert_eq!(config.service.name, "RebootReminder");
    assert_eq!(config.reboot.timeframes.len(), 3);
    assert_eq!(config.reboot.timeframes[0].deferrals, vec!["1h", "4h", "8h", "24h"]);
    assert_eq!(config.reboot.timeframes[2].reminder_interval_minutes, Some(30));
    // each tier starts where the one before it ends, and the last has no end
    let bounds: Vec<(Option<u32>, Option<u32>)> =
        config.reboot.timeframes.iter().map(|t| (t.min_hours, t.max_hours)).collect();
    assert_eq!(bounds, vec![(Some(24), Some(48)), (Some(48), Some(72)), (Some(72), None)]);
    let texts: Vec<(Option<&str>, Option<&str>)> = config
        .reboot
        .timeframes
        .iter()
        .map(|t| (t.min_timespan.as_deref(), t.max_timespan.as_deref()))
        .collect();
    assert_eq!(
        texts,
        vec![(Some("24h"), Some("48h")), (Some("48h"), Some("72h")), (Some("72h"), None)]
    );
    assert_eq!(config.notification.quiet_hours.days_of_week, vec![0, 1, 2, 3, 4, 5, 6]);
    assert!(!config.watchdog.enabled);
}

#[test]
fn validation_reports_the_first_broken_rule() {
    let check = |change: &dyn Fn(&mut Config), expected: ConfigError| {
        let mut config = rebootreminder::config::default();
        change(&mut config);
        assert_eq!(validate_config(&config), Err(expected));
    };
    check(&|c| c.service.name.clear(), ConfigError::EmptyServiceName);
    check(&|c| c.service.display_name.clear(), ConfigError::EmptyServiceDisplayName);
    check(&|c| c.service.config_refresh_minutes = 0, ConfigError::ZeroConfigRefresh);
    check(&|c| c.notification.branding.title.clear(), ConfigError::EmptyNotificationTitle);
    check(&|c| c.notification.branding.icon_path.clear(), ConfigError::EmptyIconPath);
    check(
        &|c| c.notification.quiet_hours.start_time = "25:00".to_string(),
        ConfigError::InvalidQuietHoursStart,
    );
    check(
        &|c| c.notification.quiet_hours.end_time = "8".to_string(),
        ConfigError::InvalidQuietHoursEnd,
    );
    check(
        &|c| c.notification.quiet_hours.days_of_week = vec![1, 9, 7],
        ConfigError::InvalidDayOfWeek { day: 9 },
    );
    check(&|c| c.reboot.timeframes.clear(), ConfigError::NoTimeframes);
    check(
        &|c| c.reboot.timeframes[1].min_timespan = Some("soon".to_string()),
        ConfigError::InvalidMinTimespan { index: 1 },
    );
    check(
        &|c| c.reboot.timeframes[0].max_timespan = Some("48x".to_string()),
        ConfigError::InvalidMaxTimespan { index: 0 },
    );
    check(
        &|c| c.reboot.timeframes[0].max_timespan = Some("24h".to_string()),
        ConfigError::EmptyTimeframe { index: 0 },
    );
    check(
        &|c| {
            c.reboot.timeframes[2].reminder_interval = None;
            c.reboot.timeframes[2].reminder_interval_minutes = None;
        },
        ConfigError::MissingReminderInterval { index: 2 },
    );
    check(&|c| c.reboot.timeframes[1].deferrals.clear(), ConfigError::NoDeferrals { index: 1 });
    check(
        &|c| c.reboot.timeframes[1].deferrals.push("1d".to_string()),
        ConfigError::InvalidDeferral { index: 1 },
    );
    check(&|c| c.database.path.clear(), ConfigError::EmptyDatabasePath);
    check(&|c| c.logging.path.clear(), ConfigError::EmptyLoggingPath);
    check(&|c| c.logging.max_files = 0, ConfigError::ZeroLogFiles);
    check(&|c| c.logging.max_size = 0, ConfigError::ZeroLogSize);
    check(&|c| c.logging.level = "warning".to_string(), ConfigError::InvalidLogLevel);
    // an earlier rule is reported before a later one
    check(
        &|c| {
            c.logging.max_files = 0;
            c.service.name.clear();
        },
        ConfigError::EmptyServiceName,
    );
}

#[test]
fn validation_takes_the_log_level_in_any_case_and_skips_disabled_quiet_hours() {
    let mut config = rebootreminder::config::default();
    config.logging.level = "DEBUG".to_string();
    config.notification.quiet_hours.enabled = false;
    config.notification.quiet_hours.start_time = "never".to_string();
    assert_eq!(validate_config(&config), Ok(()));
}

#[test]
fn log_levels_are_read_by_name() {
    assert_eq!("error".parse::<LogLevel>(), Ok(LogLevel::Error));
    assert_eq!("WARN".parse::<LogLevel>(), Ok(LogLevel::Warn));
    assert_eq!("Warning".parse::<LogLevel>(), Ok(LogLevel::Warn));
    assert_eq!("info".parse::<LogLevel>(), Ok(LogLevel::Info));
    assert_eq!("debug".parse::<LogLevel>(), Ok(LogLevel::Debug));
    assert_eq!("trace".parse::<LogLevel>(), Ok(LogLevel::Trace));
    assert_eq!("loud".parse::<LogLevel>(), Err("Unknown log level: loud".to_string()));
}
