use rebootreminder::database::{
    ColumnValue, DateTimeUtc, InvalidColumnType, Notification, NotificationInteraction,
    RebootHistory, RebootSource, RebootState, UserSession,
};
use rebootreminder::time::Timestamp;

#[test]
fn a_first_state_records_the_detection_result() {
    let state = RebootState::new(true, false);
    assert_eq!(state.id.len(), 36);
    assert_eq!(state.id.matches('-').count(), 4);
    assert!(state.reboot_required);
    assert!(!state.reboot_recommended);
    assert_eq!(state.reboot_required_since, Some(state.last_check_time));
    assert_eq!(state.created_at, state.last_check_time);
    assert_eq!(state.updated_at, state.last_check_time);
    assert!(state.last_check_time.secs > 1_600_000_000);
    assert_eq!(state.postpone_count, 0);
    assert_eq!(state.next_reminder_time, None);
    assert!(state.sources.is_empty());

    let idle = RebootState::new(false, true);
    assert!(idle.reboot_recommended);
    assert_eq!(idle.reboot_required_since, None);
    assert_ne!(idle.id, state.id);

    let fixed = RebootState::first("id".to_string(), Timestamp::from_secs(5), true, true);
    assert_eq!(fixed.id, "id");
    assert_eq!(fixed.reboot_required_since, Some(Timestamp::from_secs(5)));
    assert_eq!(fixed.last_reboot_time, None);
    assert_eq!(fixed.scheduled_reboot_time, None);
    assert_eq!(fixed.reboot_reason, None);
}

#[test]
fn evidence_carries_name_description_and_severity() {
    let source = RebootSource::new("sccm", Some("SCCM requires a reboot"), "required");
    assert_eq!(source.id.len(), 36);
    assert_eq!(source.name, "sccm");
    assert_eq!(source.description.as_deref(), Some("SCCM requires a reboot"));
    assert_eq!(source.severity, "required");
    assert_eq!(source.expires_at, None);
    assert_eq!(source.details, None);
    let bare = RebootSource::new("x", None, "optional");
    assert_eq!(bare.description, None);
    let copy = source.clone();
    assert_eq!(copy.id, source.id);
    assert_eq!(copy.name, source.name);
    assert_eq!(copy.description, source.description);
    assert_eq!(copy.detected_at, source.detected_at);
}

#[test]
fn a_history_entry_holds_the_time_and_the_outcome() {
    let entry = RebootHistory::new(Timestamp::from_secs(77), false);
    assert_eq!(entry.id.len(), 36);
    assert_eq!(entry.reboot_time, Timestamp::from_secs(77));
    assert!(!entry.success);
    assert_eq!(entry.reason, None);
    assert_eq!(entry.source, None);
    assert_eq!(entry.user_name, None);
    assert_eq!(entry.computer_name, None);
    assert_eq!(entry.duration, None);
    assert_eq!(RebootHistory::recorded("h".to_string(), Timestamp::from_secs(1), true).id, "h");
}

#[test]
fn a_notification_is_made_undismissed_and_without_action() {
    let notification = Notification::new("reboot_required", "Please reboot", Some("alice"));
    assert_eq!(notification.id.len(), 36);
    assert_eq!(notification.notification_type, "reboot_required");
    assert_eq!(notification.message, "Please reboot");
    assert_eq!(notification.user_name.as_deref(), Some("alice"));
    assert!(!notification.dismissed);
    assert_eq!(notification.action, None);
    assert_eq!(notification.created_at, notification.timestamp);
    assert_eq!(Notification::new("t", "m", None).user_name, None);
}

#[test]
fn an_interaction_can_be_completed_step_by_step() {
    let interaction = NotificationInteraction::new("n-1", "dismiss");
    assert_eq!(interaction.id.len(), 36);
    assert_eq!(interaction.notification_id, "n-1");
    assert_eq!(interaction.action, "dismiss");
    assert_eq!(interaction.user_name, None);
    assert_eq!(interaction.session_id, None);
    assert_eq!(interaction.details, None);
    let id = interaction.id.clone();
    let full = interaction.with_user("alice").with_session("7").with_details("clicked");
    assert_eq!(full.id, id);
    assert_eq!(full.action, "dismiss");
    assert_eq!(full.user_name.as_deref(), Some("alice"));
    assert_eq!(full.session_id.as_deref(), Some("7"));
    assert_eq!(full.details.as_deref(), Some("clicked"));

    let detailed =
        NotificationInteraction::new_detailed("n-2", "defer:1h", Some("bob"), None, Some("d"));
    assert_eq!(detailed.notification_id, "n-2");
    assert_eq!(detailed.user_name.as_deref(), Some("bob"));
    assert_eq!(detailed.session_id, None);
    assert_eq!(detailed.details.as_deref(), Some("d"));
}

#[test]
fn a_session_is_active_when_it_is_first_seen() {
    let session = UserSession::new("alice", "3", true, false);
    assert_eq!(session.id.len(), 36);
    assert_eq!(session.user_name, "alice");
    assert_eq!(session.session_id, "3");
    assert!(session.is_active);
    assert!(session.is_rdp);
    assert!(!session.is_console);
    assert_eq!(session.client_name, None);
    assert_eq!(session.client_ip, None);
    assert_eq!(session.display_name, None);
    assert_eq!(session.last_activity, Some(session.logon_time));
    assert_eq!(session.created_at, session.logon_time);
    assert_eq!(session.updated_at, session.logon_time);
}

#[test]
fn times_are_read_from_text_and_integer_columns() {
    let text = |s: &str| ColumnValue::Text { text: s.to_string() };
    assert_eq!(
        DateTimeUtc::column_result(&text("2015-05-15T00:00:00+00:00")),
        Ok(DateTimeUtc(Timestamp::from_secs(1_431_648_000)))
    );
    assert_eq!(
        DateTimeUtc::column_result(&text("2015-05-15T02:00:00.250+02:00")),
        Ok(DateTimeUtc(Timestamp::from_secs(1_431_648_000)))
    );
    assert_eq!(DateTimeUtc::column_result(&text("yesterday")), Err(InvalidColumnType));
    assert_eq!(
        DateTimeUtc::column_result(&ColumnValue::Integer { number: 99 }),
        Ok(DateTimeUtc(Timestamp::from_secs(99)))
    );
    assert_eq!(DateTimeUtc::column_result(&ColumnValue::Other), Err(InvalidColumnType));
}

#[test]
fn times_are_written_to_columns_after_rfc_3339() {
    assert_eq!(
        DateTimeUtc(Timestamp::from_secs(1_431_648_000)).to_sql().as_deref(),
        Some("2015-05-15T00:00:00+00:00")
    );
    assert_eq!(DateTimeUtc(Timestamp::from_secs(i64::MIN)).to_sql(), None);
    let written = DateTimeUtc(Timestamp::from_secs(-86_400)).to_sql().unwrap();
    assert_eq!(
        DateTimeUtc::column_result(&ColumnValue::Text { text: written }),
        Ok(DateTimeUtc(Timestamp::from_secs(-86_400)))
    );
}

#[test]
fn timestamps_do_their_arithmetic_without_overflow() {
    let a = Timestamp::from_secs(i64::MAX);
    let b = Timestamp::from_secs(i64::MIN);
    assert_eq!(a.seconds_since(&b), i64::MAX);
    assert_eq!(b.seconds_since(&a), i64::MIN);
    assert_eq!(Timestamp::from_secs(10).seconds_since(&Timestamp::from_secs(25)), -15);
    assert_eq!(Timestamp::from_secs(7_199).hours_since(&Timestamp::from_secs(0)), 1);
    assert_eq!(Timestamp::from_secs(0).hours_since(&Timestamp::from_secs(7_199)), -1);
    assert_eq!(Timestamp::from_secs(0).hours_since(&Timestamp::from_secs(3_599)), 0);
    assert_eq!(a.hours_since(&b), 5124095576030431);
    assert_eq!(Timestamp::from_secs(5).checked_add_secs(10), Some(Timestamp::from_secs(15)));
    assert_eq!(Timestamp::from_secs(-5).checked_add_secs(u64::MAX), None);
    assert_eq!(
        Timestamp::from_secs(i64::MIN).checked_add_secs(u64::MAX),
        Some(Timestamp::from_secs(i64::MAX))
    );
    assert_eq!(a.checked_add_secs(1), None);
    assert!(b.is_before(&a));
    assert!(!a.is_before(&a));
}
