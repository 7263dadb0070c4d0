use rebootreminder::config::{default_system_reboot_config, DetectionMethodsConfig, RebootConfig};
use rebootreminder::database::RebootHistory;
use rebootreminder::reboot::history::{
    entry_from_event, entry_from_event_as, events_wanted, latest_entries, merge_history,
    RebootHistoryManager,
};
use rebootreminder::time::Timestamp;

fn entry(id: &str, secs: i64) -> RebootHistory {
    RebootHistory::recorded(id.to_string(), Timestamp::from_secs(secs), true)
}

fn ids(entries: &[RebootHistory]) -> Vec<&str> {
    entries.iter().map(|e| e.id.as_str()).collect()
}

fn manager() -> RebootHistoryManager {
    RebootHistoryManager::new(RebootConfig {
        timeframes: vec![],
        detection_methods: DetectionMethodsConfig::default(),
        system_reboot: default_system_reboot_config(),
    })
}

#[test]
fn the_latest_reboots_come_first() {
    let shown = latest_entries(
        vec![entry("a", 10), entry("b", 30), entry("c", 20), entry("d", 30), entry("e", 5)],
        3,
    );
    assert_eq!(ids(&shown), vec!["b", "d", "c"]);
    let all = latest_entries(vec![entry("a", 10), entry("b", 30)], 5);
    assert_eq!(ids(&all), vec!["b", "a"]);
    assert!(latest_entries(vec![entry("a", 10)], 0).is_empty());
    assert!(latest_entries(vec![], 3).is_empty());
    let from_log = manager()
        .get_reboot_history_from_event_log(vec![entry("x", 1), entry("y", 3), entry("z", 2)], 2);
    assert_eq!(ids(&from_log), vec!["y", "z"]);
}

#[test]
fn events_of_a_known_time_are_left_out() {
    let from_db = vec![entry("db1", 100), entry("db2", 50)];
    let from_log = vec![entry("log1", 50), entry("log2", 75), entry("log3", 75), entry("log4", 200)];
    let merged = merge_history(from_db, &from_log, 10);
    assert_eq!(ids(&merged.added), vec!["log2", "log4"]);
    assert_eq!(ids(&merged.history), vec!["log4", "db1", "log2", "db2"]);
}

#[test]
fn the_event_log_is_not_asked_when_the_database_has_enough() {
    assert_eq!(events_wanted(2, 10), 8);
    assert_eq!(events_wanted(10, 10), 0);
    assert_eq!(events_wanted(11, 10), 0);
    let merged = manager().get_reboot_history(
        vec![entry("db1", 1), entry("db2", 3), entry("db3", 2)],
        &vec![entry("log1", 99)],
        3,
    );
    assert!(merged.added.is_empty());
    assert_eq!(ids(&merged.history), vec!["db2", "db3", "db1"]);
    let cut = manager().get_reboot_history(
        vec![entry("db1", 1)],
        &vec![entry("log1", 99), entry("log2", 98)],
        2,
    );
    assert_eq!(ids(&cut.added), vec!["log1", "log2"]);
    assert_eq!(ids(&cut.history), vec!["log1", "log2"]);
}

#[test]
fn a_shutdown_event_becomes_a_history_entry() {
    let named = entry_from_event_as("e".to_string(), Timestamp::from_secs(9), Some("HOST"), true);
    assert_eq!(named.id, "e");
    assert_eq!(named.reboot_time, Timestamp::from_secs(9));
    assert_eq!(named.reason.as_deref(), Some("System shutdown"));
    assert_eq!(named.source.as_deref(), Some("Event Log"));
    assert_eq!(named.user_name.as_deref(), Some("System"));
    assert_eq!(named.computer_name.as_deref(), Some("HOST"));
    assert!(named.success);
    assert_eq!(named.duration, Some(0));
    let bare = entry_from_event(Timestamp::from_secs(9), None, false);
    assert_eq!(bare.id.len(), 36);
    assert_eq!(bare.user_name.as_deref(), Some("Unknown"));
    assert_eq!(bare.computer_name.as_deref(), Some("Unknown"));
}
