use rebootreminder::config::{
    default_system_reboot_config, DetectionMethodsConfig, RebootConfig, TimeframeConfig,
};
use rebootreminder::database::{RebootSource, RebootState};
use rebootreminder::reboot::{
    calculate_next_reminder_time, format_duration, format_time, format_time_since,
    format_time_since_last_reboot, get_timeframe, get_timeframe_at, hours_since_required,
    parse_deferral, reminder_interval_seconds, select_timeframe,
};
use rebootreminder::time::Timestamp;
use rebootreminder::utils::timespan::TimespanError;

fn tier(min: Option<u32>, max: Option<u32>) -> TimeframeConfig {
    TimeframeConfig {
        min_hours: min,
        max_hours: max,
        min_timespan: None,
        max_timespan: None,
        reminder_interval_hours: None,
        reminder_interval_minutes: None,
        reminder_interval: None,
        deferrals: vec![],
    }
}

fn reboot_config(timeframes: Vec<TimeframeConfig>) -> RebootConfig {
    RebootConfig {
        timeframes,
        detection_methods: DetectionMethodsConfig::default(),
        system_reboot: default_system_reboot_config(),
    }
}

fn source_at(secs: i64) -> RebootSource {
    RebootSource::found(
        format!("source-{}", secs),
        Timestamp::from_secs(secs),
        "registry",
        None,
        "required",
    )
}

fn state_with(required: bool, detections: &[i64]) -> RebootState {
    let mut state =
        RebootState::first("state".to_string(), Timestamp::from_secs(0), required, false);
    state.sources = detections.iter().map(|secs| source_at(*secs)).collect();
    state
}

#[test]
fn a_contiguous_table_has_a_tier_for_all_hours_from_its_start() {
    let config = reboot_config(vec![
        tier(Some(2), Some(24)),
        tier(Some(24), Some(48)),
        tier(Some(48), Some(72)),
        tier(Some(72), None),
    ]);
    let bounds: [(u64, Option<u64>); 4] =
        [(2, Some(24)), (24, Some(48)), (48, Some(72)), (72, None)];
    for hours in 2..200i64 {
        let index = select_timeframe(&config, hours).expect("a tier");
        let (min, max) = bounds[index];
        assert!(min as i64 <= hours);
        assert!(max.map_or(true, |m| hours < m as i64));
    }
    assert_eq!(select_timeframe(&config, 2), Some(0));
    assert_eq!(select_timeframe(&config, 23), Some(0));
    assert_eq!(select_timeframe(&config, 24), Some(1));
    assert_eq!(select_timeframe(&config, 72), Some(3));
    assert_eq!(select_timeframe(&config, i64::MAX), Some(3));
}

#[test]
fn hours_outside_every_bracket_fall_to_the_last_tier() {
    let config = reboot_config(vec![tier(Some(24), Some(48)), tier(Some(49), Some(72))]);
    assert_eq!(select_timeframe(&config, 0), Some(1));
    assert_eq!(select_timeframe(&config, 48), Some(1));
    assert_eq!(select_timeframe(&config, 1000), Some(1));
    assert_eq!(select_timeframe(&config, -5), Some(1));
    assert_eq!(select_timeframe(&config, 30), Some(0));
    assert_eq!(select_timeframe(&reboot_config(vec![]), 30), None);
}

#[test]
fn a_bound_given_as_a_timespan_goes_before_the_number() {
    let mut first = tier(Some(0), Some(1));
    first.min_timespan = Some("24h".to_string());
    first.max_timespan = Some("2880m".to_string());
    let mut second = tier(Some(48), None);
    second.min_timespan = Some("not a timespan".to_string());
    let config = reboot_config(vec![first, second]);
    assert_eq!(select_timeframe(&config, 0), Some(1));
    assert_eq!(select_timeframe(&config, 24), Some(0));
    assert_eq!(select_timeframe(&config, 47), Some(0));
    assert_eq!(select_timeframe(&config, 48), Some(1));
}

#[test]
fn the_selected_tier_gives_the_reminder_time_and_the_deferrals() {
    let mut wanted = tier(Some(24), Some(48));
    wanted.reminder_interval = Some("4h".to_string());
    wanted.deferrals = vec!["1h".to_string(), "4h".to_string()];
    let mut before = tier(Some(0), Some(24));
    before.reminder_interval = Some("8h".to_string());
    before.deferrals = vec!["8h".to_string()];
    let mut after = tier(Some(48), None);
    after.reminder_interval = Some("30m".to_string());
    after.deferrals = vec!["30m".to_string()];
    let config = reboot_config(vec![before, wanted, after]);

    let now = Timestamp::from_secs(1_700_000_000);
    let state = state_with(true, &[now.secs - 30 * 3600]);
    assert_eq!(hours_since_required(&state, now), 30);
    let selected = get_timeframe_at(&config, &state, now).expect("a tier");
    assert_eq!(selected.min_hours, Some(24));
    assert_eq!(selected.max_hours, Some(48));
    assert_eq!(selected.deferrals, vec!["1h".to_string(), "4h".to_string()]);
    assert_eq!(
        calculate_next_reminder_time(selected, now),
        Timestamp::from_secs(now.secs + 4 * 3600)
    );
}

#[test]
fn the_hours_count_from_the_earliest_detection() {
    let now = Timestamp::from_secs(100 * 3600);
    let mut state = state_with(true, &[90 * 3600, 10 * 3600 + 1, 50 * 3600]);
    state.reboot_required_since = Some(Timestamp::from_secs(99 * 3600));
    assert_eq!(hours_since_required(&state, now), 89);
    assert_eq!(hours_since_required(&state_with(true, &[]), now), 0);
    // a detection in the future gives negative hours, rounded toward zero
    assert_eq!(hours_since_required(&state_with(true, &[100 * 3600 + 1]), now), 0);
    assert_eq!(hours_since_required(&state_with(true, &[102 * 3600 + 1]), now), -2);
}

#[test]
fn no_tier_applies_while_no_reboot_is_required() {
    let config = reboot_config(vec![tier(Some(0), None)]);
    let now = Timestamp::from_secs(5000);
    assert!(get_timeframe_at(&config, &state_with(false, &[0]), now).is_none());
    assert!(get_timeframe_at(&config, &state_with(true, &[0]), now).is_some());
    assert!(get_timeframe(&config, &state_with(false, &[0])).is_none());
    assert!(get_timeframe(&config, &state_with(true, &[0])).is_some());
    assert!(get_timeframe(&reboot_config(vec![]), &state_with(true, &[0])).is_none());
}

#[test]
fn the_reminder_interval_is_the_text_then_hours_then_minutes_then_one_hour() {
    let mut t = tier(None, None);
    assert_eq!(reminder_interval_seconds(&t), 3600);
    t.reminder_interval_minutes = Some(30);
    assert_eq!(reminder_interval_seconds(&t), 1800);
    t.reminder_interval_hours = Some(2);
    assert_eq!(reminder_interval_seconds(&t), 7200);
    t.reminder_interval = Some("1h30m".to_string());
    assert_eq!(reminder_interval_seconds(&t), 5400);
    t.reminder_interval = Some("often".to_string());
    assert_eq!(reminder_interval_seconds(&t), 7200);
    let now = Timestamp::from_secs(-10);
    assert_eq!(calculate_next_reminder_time(&t, now), Timestamp::from_secs(7190));
}

#[test]
fn deferrals_are_read_as_seconds() {
    assert_eq!(parse_deferral("1h"), Ok(3600));
    assert_eq!(parse_deferral("30m"), Ok(1800));
    assert_eq!(parse_deferral("1h30m15s"), Ok(5415));
    assert_eq!(parse_deferral("1d"), Err(TimespanError::InvalidCharacter('d')));
    assert_eq!(parse_deferral("9223372036854775807s"), Ok(i64::MAX));
    assert_eq!(parse_deferral("9223372036854775808s"), Err(TimespanError::Overflow));
}

#[test]
fn durations_are_written_in_words_and_as_a_timespan() {
    assert_eq!(format_duration(0), "0 seconds (0s)");
    assert_eq!(format_duration(45), "45 seconds (45s)");
    assert_eq!(format_duration(-5), "-5 seconds (0s)");
    assert_eq!(format_duration(60), "1 minutes (1m)");
    assert_eq!(format_duration(125), "2 minutes, 5 seconds (2m5s)");
    assert_eq!(format_duration(3600), "1 hours (1h)");
    assert_eq!(format_duration(3660), "1 hours, 1 minutes (1h1m)");
    assert_eq!(format_duration(3601), "1 hours (1h1s)");
    assert_eq!(format_duration(86400), "1 days (24h)");
    assert_eq!(format_duration(90000), "1 days, 1 hours (25h)");
    assert_eq!(format_duration(i64::MIN), "-9223372036854775808 seconds (0s)");
}

#[test]
fn times_are_written_in_utc() {
    assert_eq!(format_time(Timestamp::from_secs(0)), Some("1970-01-01 00:00:00".to_string()));
    assert_eq!(
        format_time(Timestamp::from_secs(1_431_648_000)),
        Some("2015-05-15 00:00:00".to_string())
    );
    assert_eq!(
        format_time(Timestamp::from_secs(1_700_000_000)),
        Some("2023-11-14 22:13:20".to_string())
    );
    assert_eq!(format_time(Timestamp::from_secs(-1)), Some("1969-12-31 23:59:59".to_string()));
    assert_eq!(format_time(Timestamp::from_secs(i64::MAX)), None);
}

#[test]
fn the_time_since_the_last_reboot_is_written_in_words() {
    let now = Timestamp::from_secs(10_000);
    assert_eq!(format_time_since(None, now), "unknown");
    assert_eq!(
        format_time_since(Some(Timestamp::from_secs(10_001)), now),
        "in the future (clock mismatch)"
    );
    assert_eq!(format_time_since(Some(now), now), "0 seconds (0s) ago");
    assert_eq!(
        format_time_since(Some(Timestamp::from_secs(10_000 - 7260)), now),
        "2 hours, 1 minutes (2h1m) ago"
    );
    assert_eq!(format_time_since_last_reboot(None), "unknown");
    assert_eq!(
        format_time_since_last_reboot(Some(Timestamp::from_secs(i64::MAX))),
        "in the future (clock mismatch)"
    );
    assert!(format_time_since_last_reboot(Some(Timestamp::from_secs(0))).ends_with(" ago"));
}

#[test]
fn the_default_table_has_a_tier_for_every_hour_from_its_start() {
    let config = rebootreminder::config::default().reboot;
    assert_eq!(select_timeframe(&config, 24), Some(0));
    assert_eq!(select_timeframe(&config, 47), Some(0));
    assert_eq!(select_timeframe(&config, 48), Some(1));
    assert_eq!(select_timeframe(&config, 71), Some(1));
    assert_eq!(select_timeframe(&config, 72), Some(2));
    assert_eq!(select_timeframe(&config, 1_000_000), Some(2));
    assert_eq!(reminder_interval_seconds(&config.timeframes[0]), 4 * 3600);
    assert_eq!(reminder_interval_seconds(&config.timeframes[1]), 2 * 3600);
    assert_eq!(reminder_interval_seconds(&config.timeframes[2]), 30 * 60);
}
