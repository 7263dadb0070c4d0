//! Reminders: whether one may be shown now, what is recorded of it, and what
//! follows from what the user does with it.
//!
//! A reminder is held back during quiet hours and while nobody is logged
//! on; holding one back is no error. Showing one is best effort: a channel
//! that fails is noted in the log and is no error either. What a user does
//! with a reminder is written down before anything is done about it, also
//! where the user asks for a reboot.

pub mod toast;

use vstd::prelude::*;
use vstd::string::StringExecFns;
use crate::config::models::{
    text_seconds, timespan_setting, Config, NotificationConfig, NotificationType,
    QuietHoursConfig, SystemRebootConfig,
};
use crate::database::models::{
    shown_notification, Notification, NotificationInteraction, NotificationInteractionView,
    UserSession,
};
use crate::reboot::system::{RebootConfig, RebootOutcome};
use crate::time::{
    clock_text_seconds, local_seconds_of_day_now, parse_clock_text, utc_weekday_now,
};
use crate::utils::text::{contains_char, has_prefix, starts_with};

verus! {

/// Whether the time of day `now` lies in the quiet hours from `start` to
/// `end`, all three in seconds from midnight. The start belongs to the quiet
/// hours and the end does not; where the start comes after the end, the
/// quiet hours run past midnight.
pub open spec fn in_quiet_window(start: u32, end: u32, now: u32) -> bool {
    if start > end {
        now >= start || now < end
    } else {
        now >= start && now < end
    }
}

/// Whether reminders are held back on the day `weekday` (Sunday being 0) at
/// the time of day `seconds`, `start` and `end` being what was read from the
/// two configured times: quiet hours are switched on, the day is one of
/// theirs, both times could be read, and the time of day lies between them.
pub open spec fn quiet_hours_hold(
    config: QuietHoursConfig,
    weekday: u8,
    seconds: u32,
    start: Option<u32>,
    end: Option<u32>,
) -> bool {
    &&& config.enabled
    &&& config.days_of_week@.contains(weekday)
    &&& start is Some
    &&& end is Some
    &&& in_quiet_window(start.unwrap(), end.unwrap(), seconds)
}

fn has_day(days: &Vec<u8>, day: u8) -> (found: bool)
    ensures
        found == days@.contains(day),
{
    let mut i: usize = 0;
    while i < days.len()
        invariant
            i <= days.len(),
            forall|k: int| 0 <= k < i ==> days@[k] != day,
        decreases days.len() - i,
    {
        if days[i] == day {
            return true;
        }
        i += 1;
    }
    false
}

/// Whether reminders are held back, given what was read from the two
/// configured times.
pub fn quiet_hours_apply(
    config: &QuietHoursConfig,
    weekday: u8,
    seconds: u32,
    start: Option<u32>,
    end: Option<u32>,
) -> (quiet: bool)
    ensures
        quiet == quiet_hours_hold(*config, weekday, seconds, start, end),
{
    if !config.enabled {
        return false;
    }
    if !has_day(&config.days_of_week, weekday) {
        return false;
    }
    match (start, end) {
        (Some(s), Some(e)) => if s > e {
            seconds >= s || seconds < e
        } else {
            seconds >= s && seconds < e
        },
        _ => false,
    }
}

/// Whether reminders are held back on the day `weekday` at the time of day
/// `seconds`.
pub fn quiet_hours_at(config: &QuietHoursConfig, weekday: u8, seconds: u32) -> (quiet: bool)
    ensures
        quiet == quiet_hours_hold(
            *config,
            weekday,
            seconds,
            clock_text_seconds(config.start_time@),
            clock_text_seconds(config.end_time@),
        ),
{
    let start = parse_clock_text(config.start_time.as_str());
    let end = parse_clock_text(config.end_time.as_str());
    quiet_hours_apply(config, weekday, seconds, start, end)
}

/// Why a reminder is not shown.
#[derive(Debug, Clone, Copy, PartialEq, Eq, Structural)]
pub enum Suppression {
    QuietHours,
    NoSession,
}

/// What becomes of a reminder.
#[derive(Debug, Clone)]
pub enum NotificationDecision {
    /// It is not shown, and nothing is recorded.
    Suppressed { reason: Suppression },
    /// It is recorded as `record` and then shown on `channels` to the user
    /// of the first session.
    Show { record: Notification, channels: Option<NotificationType> },
}

/// A channel that was to show a reminder and did not.
#[derive(Debug, Clone, Copy, PartialEq, Eq, Structural)]
pub enum DisplayError {
    TrayFailed,
    ToastFailed,
}

/// Why a reboot that a user asked for did not start.
#[derive(Debug, Clone, Copy, PartialEq, Eq, Structural)]
pub enum RebootActionError {
    /// The action does not name a kind of reboot.
    InvalidFormat,
    /// The configuration does not let users reboot.
    Disabled,
    /// The user said no when asked.
    Cancelled,
    /// The reboot could not be triggered.
    TriggerFailed,
}

/// What is to be done about something a user did with a reminder.
#[derive(Debug, Clone)]
pub struct InteractionPlan {
    /// What to write down, first of all.
    pub record: NotificationInteraction,
    /// Whether the user asked for a reboot, which is then to be handled.
    pub reboot_requested: bool,
}

/// The channels on which reminders are shown: those named, or else those
/// switched on one by one.
pub open spec fn channels_of(config: NotificationConfig) -> Option<NotificationType> {
    match config.notification_type {
        Some(kind) => Some(kind),
        None => if config.show_tray && config.show_toast {
            Some(NotificationType::Both)
        } else if config.show_tray {
            Some(NotificationType::Tray)
        } else if config.show_toast {
            Some(NotificationType::Toast)
        } else {
            None
        },
    }
}

/// Whether `channels` has the tray in it.
pub open spec fn shows_on_tray(channels: NotificationType) -> bool {
    channels == NotificationType::Tray || channels == NotificationType::Both
}

/// Whether `channels` has the toast in it.
pub open spec fn shows_as_toast(channels: NotificationType) -> bool {
    channels == NotificationType::Toast || channels == NotificationType::Both
}

/// The channels among `channels` that did not show the reminder, the tray
/// before the toast. They are noted in the log.
pub open spec fn display_failures(channels: NotificationType, tray_ok: bool, toast_ok: bool) -> Seq<
    DisplayError,
> {
    (if shows_on_tray(channels) && !tray_ok {
        seq![DisplayError::TrayFailed]
    } else {
        Seq::empty()
    }) + (if shows_as_toast(channels) && !toast_ok {
        seq![DisplayError::ToastFailed]
    } else {
        Seq::empty()
    })
}

/// How showing a reminder on `channels` ends: well, however the channels
/// fared. Showing is best effort; a channel that fails is no error, also
/// where it is the only one and where all fail.
pub open spec fn display_result(channels: NotificationType, tray_ok: bool, toast_ok: bool) -> Result<
    (),
    DisplayError,
> {
    Ok(())
}

/// What is written into the details of a reboot that a user asked for.
pub open spec fn reboot_details(session: UserSession) -> Seq<char> {
    "Reboot initiated by user "@ + session.user_name@ + " from session "@ + session.session_id@
}

/// Whether an action asks for a reboot.
pub open spec fn is_reboot_action(action: Seq<char>) -> bool {
    has_prefix(action, "reboot:"@)
}

/// The seconds counted down before a reboot: those of the timespan text
/// where it is one and fits in 32 bits, else the number of seconds, else 30.
pub open spec fn countdown_of(config: SystemRebootConfig) -> u32 {
    match text_seconds(config.countdown) {
        Some(secs) if secs <= u32::MAX => secs as u32,
        _ => match config.countdown_seconds {
            Some(secs) => secs,
            None => 30,
        },
    }
}

/// The whole hours of a deferral and the whole minutes beyond them; nothing
/// where the deferral is no timespan.
pub open spec fn deferral_length(deferral: Seq<char>) -> Option<(u64, u64)> {
    match crate::utils::timespan::timespan_seconds(deferral) {
        Ok(secs) => Some(((secs / 3600) as u64, ((secs % 3600) / 60) as u64)),
        Err(_) => None,
    }
}

/// The whole hours of a deferral and the whole minutes beyond them, as they
/// are shown with the deferrals on offer.
pub fn describe_deferral(deferral: &str) -> (length: Option<(u64, u64)>)
    ensures
        length == deferral_length(deferral@),
{
    match crate::utils::timespan::parse_timespan(deferral) {
        Ok(secs) => Some((secs / 3600, (secs % 3600) / 60)),
        Err(_) => None,
    }
}

/// Decides about reminders.
#[derive(Debug)]
pub struct NotificationManager {
    config: NotificationConfig,
    system_reboot_config: SystemRebootConfig,
}

impl NotificationManager {
    pub closed spec fn config(&self) -> NotificationConfig {
        self.config
    }

    pub closed spec fn system_reboot(&self) -> SystemRebootConfig {
        self.system_reboot_config
    }

    /// A manager with the settings of `config`.
    pub fn new(config: &Config) -> (manager: Self)
        ensures
            manager.config().same_as(&config.notification),
            manager.system_reboot() == config.reboot.system_reboot,
    {
        NotificationManager {
            config: config.notification.clone(),
            system_reboot_config: config.reboot.system_reboot.clone(),
        }
    }

    /// The channels on which reminders are shown.
    pub fn channels(&self) -> (channels: Option<NotificationType>)
        ensures
            channels == channels_of(self.config()),
    {
        match self.config.notification_type {
            Some(kind) => Some(kind),
            None => if self.config.show_tray && self.config.show_toast {
                Some(NotificationType::Both)
            } else if self.config.show_tray {
                Some(NotificationType::Tray)
            } else if self.config.show_toast {
                Some(NotificationType::Toast)
            } else {
                None
            },
        }
    }

    /// Whether a tray icon is set up: the tray is one of the channels, and
    /// the process does not run as a service, which has no desktop.
    pub fn uses_tray(&self, running_as_service: bool) -> (tray: bool)
        ensures
            tray == (!running_as_service && (channels_of(self.config()) == Some(
                NotificationType::Tray,
            ) || channels_of(self.config()) == Some(NotificationType::Both))),
    {
        if running_as_service {
            return false;
        }
        match self.channels() {
            Some(NotificationType::Tray) => true,
            Some(NotificationType::Both) => true,
            _ => false,
        }
    }

    /// Whether reminders are held back on the day `weekday` at the time of
    /// day `seconds`.
    pub fn is_quiet_hours_at(&self, weekday: u8, seconds: u32) -> (quiet: bool)
        ensures
            quiet == quiet_hours_hold(
                self.config().quiet_hours,
                weekday,
                seconds,
                clock_text_seconds(self.config().quiet_hours.start_time@),
                clock_text_seconds(self.config().quiet_hours.end_time@),
            ),
    {
        quiet_hours_at(&self.config.quiet_hours, weekday, seconds)
    }

    /// Whether reminders are held back right now. The day is that of the
    /// UTC clock and the time of day that of the local clock.
    pub fn is_quiet_hours(&self) -> (quiet: bool)
        ensures
            exists|weekday: u8, seconds: u32|
                weekday < 7 && quiet == #[trigger] quiet_hours_hold(
                    self.config().quiet_hours,
                    weekday,
                    seconds,
                    clock_text_seconds(self.config().quiet_hours.start_time@),
                    clock_text_seconds(self.config().quiet_hours.end_time@),
                ),
    {
        let day = utc_weekday_now();
        let seconds = local_seconds_of_day_now();
        let quiet = self.is_quiet_hours_at(day as u8, seconds);
        proof {
            assert(quiet == quiet_hours_hold(
                self.config().quiet_hours,
                day as u8,
                seconds,
                clock_text_seconds(self.config().quiet_hours.start_time@),
                clock_text_seconds(self.config().quiet_hours.end_time@),
            ));
        }
        quiet
    }

    /// Decides what becomes of a reminder. `quiet` says whether quiet hours
    /// hold, and `sessions` are the sessions of the users logged on; during
    /// quiet hours they are not looked at.
    pub fn show_notification(
        &self,
        notification_type: &str,
        message: &str,
        action: Option<&str>,
        quiet: bool,
        sessions: &Vec<UserSession>,
    ) -> (decision: NotificationDecision)
        ensures
            quiet ==> decision == (NotificationDecision::Suppressed {
                reason: Suppression::QuietHours,
            }),
            !quiet && sessions@.len() == 0 ==> decision == (NotificationDecision::Suppressed {
                reason: Suppression::NoSession,
            }),
            !quiet && sessions@.len() > 0 ==> {
                &&& decision matches NotificationDecision::Show { record, channels }
                &&& channels == channels_of(self.config())
                &&& record@.id.len() == 36
                &&& record@ == shown_notification(
                    record@.id,
                    record@.timestamp,
                    notification_type@,
                    message@,
                    Some(sessions@[0].user_name@),
                    action.deep_view(),
                )
            },
    {
        if quiet {
            return NotificationDecision::Suppressed { reason: Suppression::QuietHours };
        }
        if sessions.len() == 0 {
            return NotificationDecision::Suppressed { reason: Suppression::NoSession };
        }
        let mut record = Notification::new(
            notification_type,
            message,
            Some(sessions[0].user_name.as_str()),
        );
        match action {
            Some(text) => {
                record.action = Some(text.to_owned());
            },
            None => {},
        }
        NotificationDecision::Show { record, channels: self.channels() }
    }

    /// The channels among `channels` that did not show the reminder, to be
    /// noted in the log; `tray_ok` and `toast_ok` say how the two fared.
    pub fn failed_channels(channels: NotificationType, tray_ok: bool, toast_ok: bool) -> (failed: Vec<
        DisplayError,
    >)
        ensures
            failed@ == display_failures(channels, tray_ok, toast_ok),
    {
        let mut failed: Vec<DisplayError> = Vec::new();
        let on_tray = match channels {
            NotificationType::Tray => true,
            NotificationType::Both => true,
            NotificationType::Toast => false,
        };
        let as_toast = match channels {
            NotificationType::Toast => true,
            NotificationType::Both => true,
            NotificationType::Tray => false,
        };
        if on_tray && !tray_ok {
            failed.push(DisplayError::TrayFailed);
        }
        if as_toast && !toast_ok {
            failed.push(DisplayError::ToastFailed);
        }
        assert(failed@ =~= display_failures(channels, tray_ok, toast_ok));
        failed
    }

    /// How showing a reminder ends, given how the channels fared: well in
    /// every case, since a channel that fails is no error.
    pub fn conclude_display(channels: NotificationType, tray_ok: bool, toast_ok: bool) -> (result:
        Result<(), DisplayError>)
        ensures
            result == display_result(channels, tray_ok, toast_ok),
            result == Ok::<(), DisplayError>(()),
    {
        Ok(())
    }

    /// Decides what is to be done about something a user did with the
    /// notification `notification_id`: what to write down, and whether a
    /// reboot is to follow. The record is to be written before the reboot
    /// is handled.
    pub fn record_interaction(&self, notification_id: &str, action: &str, session: &UserSession) -> (plan:
        InteractionPlan)
        ensures
            plan.reboot_requested == is_reboot_action(action@),
            plan.record@.id.len() == 36,
            plan.record@ == (NotificationInteractionView {
                id: plan.record@.id,
                notification_id: notification_id@,
                timestamp: plan.record@.timestamp,
                action: action@,
                user_name: Some(session.user_name@),
                session_id: Some(session.session_id@),
                details: if is_reboot_action(action@) {
                    Some(reboot_details(*session))
                } else {
                    None
                },
            }),
    {
        let reboot_requested = starts_with(action, "reboot:");
        let details = if reboot_requested {
            let mut text = "Reboot initiated by user ".to_owned();
            text.append(session.user_name.as_str());
            text.append(" from session ");
            text.append(session.session_id.as_str());
            Some(text)
        } else {
            None
        };
        let mut record = NotificationInteraction::new_detailed(
            notification_id,
            action,
            Some(session.user_name.as_str()),
            Some(session.session_id.as_str()),
            None,
        );
        record.details = details;
        InteractionPlan { record, reboot_requested }
    }

    /// The settings with which a reboot that a user asked for by `action`
    /// is made, where it may be made: the action must name a kind of reboot
    /// behind a colon, and the configuration must let users reboot.
    pub fn handle_reboot_action(&self, action: &str) -> (plan: Result<RebootConfig, RebootActionError>)
        ensures
            match plan {
                Err(e) => e == if !action@.contains(':') {
                    RebootActionError::InvalidFormat
                } else {
                    RebootActionError::Disabled
                } && (!action@.contains(':') || !self.system_reboot().enabled),
                Ok(config) => {
                    &&& action@.contains(':')
                    &&& self.system_reboot().enabled
                    &&& config.countdown_seconds == countdown_of(self.system_reboot())
                    &&& config.show_confirmation == self.system_reboot().show_confirmation
                    &&& config.confirmation_message == self.system_reboot().confirmation_message
                    &&& config.confirmation_title == self.system_reboot().confirmation_title
                },
            },
    {
        if !contains_char(action, ':') {
            return Err(RebootActionError::InvalidFormat);
        }
        if !self.system_reboot_config.enabled {
            return Err(RebootActionError::Disabled);
        }
        let from_text: Option<u32> = match timespan_setting(&self.system_reboot_config.countdown) {
            Some(secs) => if secs <= u32::MAX as u64 {
                Some(secs as u32)
            } else {
                None
            },
            None => None,
        };
        let countdown_seconds = match from_text {
            Some(secs) => secs,
            None => match self.system_reboot_config.countdown_seconds {
                Some(secs) => secs,
                None => 30,
            },
        };
        Ok(
            RebootConfig {
                countdown_seconds,
                show_confirmation: self.system_reboot_config.show_confirmation,
                confirmation_message: self.system_reboot_config.confirmation_message.clone(),
                confirmation_title: self.system_reboot_config.confirmation_title.clone(),
            },
        )
    }

    /// The lengths of the deferrals on offer, each as `describe_deferral`
    /// has it, in the order of the deferrals.
    pub fn set_deferral_options(&self, deferrals: &Vec<String>) -> (lengths: Vec<Option<(u64, u64)>>)
        ensures
            lengths@.len() == deferrals@.len(),
            forall|i: int|
                0 <= i < deferrals@.len() ==> lengths@[i] == deferral_length(
                    #[trigger] deferrals@[i]@,
                ),
    {
        let mut lengths: Vec<Option<(u64, u64)>> = Vec::new();
        let mut i: usize = 0;
        while i < deferrals.len()
            invariant
                i <= deferrals.len(),
                lengths@.len() == i,
                forall|k: int|
                    0 <= k < i ==> lengths@[k] == deferral_length(#[trigger] deferrals@[k]@),
            decreases deferrals.len() - i,
        {
            lengths.push(describe_deferral(deferrals[i].as_str()));
            i += 1;
        }
        lengths
    }

    /// What the user who asked for a reboot is told of its outcome.
    pub fn conclude_reboot_action(outcome: RebootOutcome) -> (result: Result<(), RebootActionError>)
        ensures
            result == match outcome {
                RebootOutcome::Initiated => Ok::<(), RebootActionError>(()),
                RebootOutcome::Declined => Err(RebootActionError::Cancelled),
                RebootOutcome::Failed => Err(RebootActionError::TriggerFailed),
            },
    {
        match outcome {
            RebootOutcome::Initiated => Ok(()),
            RebootOutcome::Declined => Err(RebootActionError::Cancelled),
            RebootOutcome::Failed => Err(RebootActionError::TriggerFailed),
        }
    }
}

} // verus!
