//! The reboot state, its evidence, and the audit trail of reboots,
//! notifications and what users did with them.
//!
//! A record gets its identifier and its timestamps when it is made. Each type
//! has a constructor that draws both itself, and one that takes them from the
//! caller and says exactly what it builds.

use vstd::prelude::*;
use crate::time::{utc_now, Timestamp};

verus! {

/// Draws a fresh identifier with `uuid::Uuid::new_v4` and writes it in the
/// hyphenated form. Trusted: the text has the 36 characters of that form;
/// nothing is claimed of which identifier it is.
#[verifier::external_body]
pub(crate) fn new_id() -> (id: String)
    ensures
        id@.len() == 36,
{
    uuid::Uuid::new_v4().to_string()
}

fn owned(text: Option<&str>) -> (copy: Option<String>)
    ensures
        copy.deep_view() == text.deep_view(),
{
    match text {
        Some(t) => Some(t.to_owned()),
        None => None,
    }
}

/// One piece of evidence that a reboot is needed.
#[derive(Debug)]
pub struct RebootSource {
    pub id: String,
    pub name: String,
    pub description: Option<String>,
    /// One of `required`, `recommended` and `optional`.
    pub severity: String,
    pub detected_at: Timestamp,
    pub expires_at: Option<Timestamp>,
    pub details: Option<String>,
}

/// What a piece of evidence says.
pub struct RebootSourceView {
    pub id: Seq<char>,
    pub name: Seq<char>,
    pub description: Option<Seq<char>>,
    pub severity: Seq<char>,
    pub detected_at: Timestamp,
    pub expires_at: Option<Timestamp>,
    pub details: Option<Seq<char>>,
}

impl View for RebootSource {
    type V = RebootSourceView;

    open spec fn view(&self) -> RebootSourceView {
        RebootSourceView {
            id: self.id@,
            name: self.name@,
            description: self.description.deep_view(),
            severity: self.severity@,
            detected_at: self.detected_at,
            expires_at: self.expires_at,
            details: self.details.deep_view(),
        }
    }
}

/// What a run of pieces of evidence says.
pub open spec fn sources_view(sources: Seq<RebootSource>) -> Seq<RebootSourceView> {
    sources.map_values(|source: RebootSource| source@)
}

/// Evidence as it is when it is found: it does not expire, and has no
/// details yet.
pub open spec fn found_source(
    id: Seq<char>,
    detected_at: Timestamp,
    name: Seq<char>,
    description: Option<Seq<char>>,
    severity: Seq<char>,
) -> RebootSourceView {
    RebootSourceView { id, name, description, severity, detected_at, expires_at: None, details: None }
}

fn copy_of(text: &Option<String>) -> (copy: Option<String>)
    ensures
        copy == *text,
{
    match text {
        Some(t) => Some(t.clone()),
        None => None,
    }
}

impl Clone for RebootSource {
    fn clone(&self) -> (copy: Self)
        ensures
            copy == *self,
    {
        RebootSource {
            id: self.id.clone(),
            name: self.name.clone(),
            description: copy_of(&self.description),
            severity: self.severity.clone(),
            detected_at: self.detected_at,
            expires_at: self.expires_at,
            details: copy_of(&self.details),
        }
    }
}

impl RebootSource {
    /// Evidence found now, under a fresh identifier.
    pub fn new(name: &str, description: Option<&str>, severity: &str) -> (source: Self)
        ensures
            source@ == found_source(
                source@.id,
                source@.detected_at,
                name@,
                description.deep_view(),
                severity@,
            ),
            source@.id.len() == 36,
    {
        RebootSource::found(new_id(), utc_now(), name, description, severity)
    }

    /// Evidence found at `detected_at`, under the identifier `id`.
    pub fn found(
        id: String,
        detected_at: Timestamp,
        name: &str,
        description: Option<&str>,
        severity: &str,
    ) -> (source: Self)
        ensures
            source@ == found_source(id@, detected_at, name@, description.deep_view(), severity@),
    {
        RebootSource {
            id,
            name: name.to_owned(),
            description: owned(description),
            severity: severity.to_owned(),
            detected_at,
            expires_at: None,
            details: None,
        }
    }
}

/// Whether a reboot is outstanding, since when, and when the user is
/// reminded next. There is one current state; every detection cycle replaces
/// it.
#[derive(Debug, Clone)]
pub struct RebootState {
    pub id: String,
    pub reboot_required: bool,
    pub reboot_recommended: bool,
    pub last_check_time: Timestamp,
    /// When the reboot became required; present exactly while one is.
    pub reboot_required_since: Option<Timestamp>,
    pub last_reboot_time: Option<Timestamp>,
    /// How often the user has put the reboot off.
    pub postpone_count: u32,
    pub next_reminder_time: Option<Timestamp>,
    pub scheduled_reboot_time: Option<Timestamp>,
    pub reboot_reason: Option<String>,
    /// The evidence of the latest detection, and of no earlier one.
    pub sources: Vec<RebootSource>,
    pub created_at: Timestamp,
    pub updated_at: Timestamp,
}

/// What a reboot state says.
pub struct RebootStateView {
    pub id: Seq<char>,
    pub reboot_required: bool,
    pub reboot_recommended: bool,
    pub last_check_time: Timestamp,
    pub reboot_required_since: Option<Timestamp>,
    pub last_reboot_time: Option<Timestamp>,
    pub postpone_count: u32,
    pub next_reminder_time: Option<Timestamp>,
    pub scheduled_reboot_time: Option<Timestamp>,
    pub reboot_reason: Option<Seq<char>>,
    pub sources: Seq<RebootSourceView>,
    pub created_at: Timestamp,
    pub updated_at: Timestamp,
}

impl View for RebootState {
    type V = RebootStateView;

    open spec fn view(&self) -> RebootStateView {
        RebootStateView {
            id: self.id@,
            reboot_required: self.reboot_required,
            reboot_recommended: self.reboot_recommended,
            last_check_time: self.last_check_time,
            reboot_required_since: self.reboot_required_since,
            last_reboot_time: self.last_reboot_time,
            postpone_count: self.postpone_count,
            next_reminder_time: self.next_reminder_time,
            scheduled_reboot_time: self.scheduled_reboot_time,
            reboot_reason: self.reboot_reason.deep_view(),
            sources: sources_view(self.sources@),
            created_at: self.created_at,
            updated_at: self.updated_at,
        }
    }
}

impl RebootStateView {
    /// What holds of every state that the service writes: the time since
    /// which a reboot is required is known exactly while one is required, and
    /// no reminder is due before the last check.
    pub open spec fn wf(self) -> bool {
        &&& self.reboot_required <==> self.reboot_required_since is Some
        &&& self.next_reminder_time is Some ==> self.next_reminder_time.unwrap().secs
            >= self.last_check_time.secs
    }
}

/// The first state: made at `now`, with no evidence, no reminder and no
/// postponement, and required since `now` if a reboot is required.
pub open spec fn first_state(
    id: Seq<char>,
    now: Timestamp,
    reboot_required: bool,
    reboot_recommended: bool,
) -> RebootStateView {
    RebootStateView {
        id,
        reboot_required,
        reboot_recommended,
        last_check_time: now,
        reboot_required_since: if reboot_required {
            Some(now)
        } else {
            None
        },
        last_reboot_time: None,
        postpone_count: 0,
        next_reminder_time: None,
        scheduled_reboot_time: None,
        reboot_reason: None,
        sources: Seq::empty(),
        created_at: now,
        updated_at: now,
    }
}

impl RebootState {
    /// What holds of every state that the service writes.
    pub open spec fn wf(&self) -> bool {
        self@.wf()
    }

    /// A first state, made now under a fresh identifier.
    pub fn new(reboot_required: bool, reboot_recommended: bool) -> (state: Self)
        ensures
            state@ == first_state(
                state@.id,
                state@.last_check_time,
                reboot_required,
                reboot_recommended,
            ),
            state@.id.len() == 36,
            state.wf(),
    {
        RebootState::first(new_id(), utc_now(), reboot_required, reboot_recommended)
    }

    /// A first state, made at `now` under the identifier `id`.
    pub fn first(id: String, now: Timestamp, reboot_required: bool, reboot_recommended: bool) -> (state:
        Self)
        ensures
            state@ == first_state(id@, now, reboot_required, reboot_recommended),
            state.wf(),
    {
        let state = RebootState {
            id,
            reboot_required,
            reboot_recommended,
            last_check_time: now,
            reboot_required_since: if reboot_required {
                Some(now)
            } else {
                None
            },
            last_reboot_time: None,
            postpone_count: 0,
            next_reminder_time: None,
            scheduled_reboot_time: None,
            reboot_reason: None,
            sources: Vec::new(),
            created_at: now,
            updated_at: now,
        };
        assert(state@.sources =~= Seq::empty());
        state
    }
}

/// A reboot that has happened.
#[derive(Debug, Clone)]
pub struct RebootHistory {
    pub id: String,
    pub reboot_time: Timestamp,
    pub reason: Option<String>,
    pub source: Option<String>,
    pub user_name: Option<String>,
    pub computer_name: Option<String>,
    pub success: bool,
    /// How long the reboot took, in seconds.
    pub duration: Option<i64>,
}

/// What an entry of the reboot history says.
pub struct RebootHistoryView {
    pub id: Seq<char>,
    pub reboot_time: Timestamp,
    pub reason: Option<Seq<char>>,
    pub source: Option<Seq<char>>,
    pub user_name: Option<Seq<char>>,
    pub computer_name: Option<Seq<char>>,
    pub success: bool,
    pub duration: Option<i64>,
}

impl View for RebootHistory {
    type V = RebootHistoryView;

    open spec fn view(&self) -> RebootHistoryView {
        RebootHistoryView {
            id: self.id@,
            reboot_time: self.reboot_time,
            reason: self.reason.deep_view(),
            source: self.source.deep_view(),
            user_name: self.user_name.deep_view(),
            computer_name: self.computer_name.deep_view(),
            success: self.success,
            duration: self.duration,
        }
    }
}

/// An entry that holds the time and the outcome of a reboot, and nothing
/// else.
pub open spec fn plain_entry(id: Seq<char>, reboot_time: Timestamp, success: bool) -> RebootHistoryView {
    RebootHistoryView {
        id,
        reboot_time,
        reason: None,
        source: None,
        user_name: None,
        computer_name: None,
        success,
        duration: None,
    }
}

impl RebootHistory {
    /// An entry for a reboot at `reboot_time`, under a fresh identifier.
    pub fn new(reboot_time: Timestamp, success: bool) -> (entry: Self)
        ensures
            entry@ == plain_entry(entry@.id, reboot_time, success),
            entry@.id.len() == 36,
    {
        RebootHistory::recorded(new_id(), reboot_time, success)
    }

    /// An entry for a reboot at `reboot_time`, under the identifier `id`.
    pub fn recorded(id: String, reboot_time: Timestamp, success: bool) -> (entry: Self)
        ensures
            entry@ == plain_entry(id@, reboot_time, success),
    {
        RebootHistory {
            id,
            reboot_time,
            reason: None,
            source: None,
            user_name: None,
            computer_name: None,
            success,
            duration: None,
        }
    }
}

/// A reminder that was shown.
#[derive(Debug, Clone)]
pub struct Notification {
    pub id: String,
    pub timestamp: Timestamp,
    pub notification_type: String,
    pub message: String,
    pub user_name: Option<String>,
    pub dismissed: bool,
    pub action: Option<String>,
    pub created_at: Timestamp,
}

/// What the record of a reminder says.
pub struct NotificationView {
    pub id: Seq<char>,
    pub timestamp: Timestamp,
    pub notification_type: Seq<char>,
    pub message: Seq<char>,
    pub user_name: Option<Seq<char>>,
    pub dismissed: bool,
    pub action: Option<Seq<char>>,
    pub created_at: Timestamp,
}

impl View for Notification {
    type V = NotificationView;

    open spec fn view(&self) -> NotificationView {
        NotificationView {
            id: self.id@,
            timestamp: self.timestamp,
            notification_type: self.notification_type@,
            message: self.message@,
            user_name: self.user_name.deep_view(),
            dismissed: self.dismissed,
            action: self.action.deep_view(),
            created_at: self.created_at,
        }
    }
}

/// The record of a reminder as it is when the reminder is shown at `now`:
/// not dismissed, and with the action `action`.
pub open spec fn shown_notification(
    id: Seq<char>,
    now: Timestamp,
    notification_type: Seq<char>,
    message: Seq<char>,
    user_name: Option<Seq<char>>,
    action: Option<Seq<char>>,
) -> NotificationView {
    NotificationView {
        id,
        timestamp: now,
        notification_type,
        message,
        user_name,
        dismissed: false,
        action,
        created_at: now,
    }
}

impl Notification {
    /// A notification made now, under a fresh identifier, without an
    /// action.
    pub fn new(notification_type: &str, message: &str, user_name: Option<&str>) -> (notification:
        Self)
        ensures
            notification@ == shown_notification(
                notification@.id,
                notification@.timestamp,
                notification_type@,
                message@,
                user_name.deep_view(),
                None,
            ),
            notification@.id.len() == 36,
    {
        Notification::shown(new_id(), utc_now(), notification_type, message, user_name)
    }

    /// A notification made at `now`, under the identifier `id`, without an
    /// action.
    pub fn shown(
        id: String,
        now: Timestamp,
        notification_type: &str,
        message: &str,
        user_name: Option<&str>,
    ) -> (notification: Self)
        ensures
            notification@ == shown_notification(
                id@,
                now,
                notification_type@,
                message@,
                user_name.deep_view(),
                None,
            ),
    {
        Notification {
            id,
            timestamp: now,
            notification_type: notification_type.to_owned(),
            message: message.to_owned(),
            user_name: owned(user_name),
            dismissed: false,
            action: None,
            created_at: now,
        }
    }
}

/// What a user did with a notification.
#[derive(Debug, Clone)]
pub struct NotificationInteraction {
    pub id: String,
    pub notification_id: String,
    pub timestamp: Timestamp,
    pub action: String,
    pub user_name: Option<String>,
    pub session_id: Option<String>,
    pub details: Option<String>,
}

/// What the record of an interaction says.
pub struct NotificationInteractionView {
    pub id: Seq<char>,
    pub notification_id: Seq<char>,
    pub timestamp: Timestamp,
    pub action: Seq<char>,
    pub user_name: Option<Seq<char>>,
    pub session_id: Option<Seq<char>>,
    pub details: Option<Seq<char>>,
}

impl View for NotificationInteraction {
    type V = NotificationInteractionView;

    open spec fn view(&self) -> NotificationInteractionView {
        NotificationInteractionView {
            id: self.id@,
            notification_id: self.notification_id@,
            timestamp: self.timestamp,
            action: self.action@,
            user_name: self.user_name.deep_view(),
            session_id: self.session_id.deep_view(),
            details: self.details.deep_view(),
        }
    }
}

impl NotificationInteraction {
    /// An interaction made now, of which only the action is known.
    pub fn new(notification_id: &str, action: &str) -> (interaction: Self)
        ensures
            interaction@ == (NotificationInteractionView {
                id: interaction@.id,
                notification_id: notification_id@,
                timestamp: interaction@.timestamp,
                action: action@,
                user_name: None,
                session_id: None,
                details: None,
            }),
            interaction@.id.len() == 36,
    {
        NotificationInteraction::new_detailed(notification_id, action, None, None, None)
    }

    /// An interaction made now, under a fresh identifier.
    pub fn new_detailed(
        notification_id: &str,
        action: &str,
        user_name: Option<&str>,
        session_id: Option<&str>,
        details: Option<&str>,
    ) -> (interaction: Self)
        ensures
            interaction@ == (NotificationInteractionView {
                id: interaction@.id,
                notification_id: notification_id@,
                timestamp: interaction@.timestamp,
                action: action@,
                user_name: user_name.deep_view(),
                session_id: session_id.deep_view(),
                details: details.deep_view(),
            }),
            interaction@.id.len() == 36,
    {
        NotificationInteraction::made(
            new_id(),
            utc_now(),
            notification_id,
            action,
            user_name,
            session_id,
            details,
        )
    }

    /// An interaction made at `now`, under the identifier `id`.
    pub fn made(
        id: String,
        now: Timestamp,
        notification_id: &str,
        action: &str,
        user_name: Option<&str>,
        session_id: Option<&str>,
        details: Option<&str>,
    ) -> (interaction: Self)
        ensures
            interaction@ == (NotificationInteractionView {
                id: id@,
                notification_id: notification_id@,
                timestamp: now,
                action: action@,
                user_name: user_name.deep_view(),
                session_id: session_id.deep_view(),
                details: details.deep_view(),
            }),
    {
        NotificationInteraction {
            id,
            notification_id: notification_id.to_owned(),
            timestamp: now,
            action: action.to_owned(),
            user_name: owned(user_name),
            session_id: owned(session_id),
            details: owned(details),
        }
    }

    /// The same interaction, by the user `user_name`.
    pub fn with_user(self, user_name: &str) -> (interaction: Self)
        ensures
            interaction@ == (NotificationInteractionView {
                user_name: Some(user_name@),
                ..self@
            }),
    {
        let mut interaction = self;
        interaction.user_name = Some(user_name.to_owned());
        interaction
    }

    /// The same interaction, from the session `session_id`.
    pub fn with_session(self, session_id: &str) -> (interaction: Self)
        ensures
            interaction@ == (NotificationInteractionView {
                session_id: Some(session_id@),
                ..self@
            }),
    {
        let mut interaction = self;
        interaction.session_id = Some(session_id.to_owned());
        interaction
    }

    /// The same interaction, with `details`.
    pub fn with_details(self, details: &str) -> (interaction: Self)
        ensures
            interaction@ == (NotificationInteractionView { details: Some(details@), ..self@ }),
    {
        let mut interaction = self;
        interaction.details = Some(details.to_owned());
        interaction
    }
}

/// A user's session on the machine.
#[derive(Debug, Clone)]
pub struct UserSession {
    pub id: String,
    pub user_name: String,
    pub session_id: String,
    pub logon_time: Timestamp,
    pub is_active: bool,
    pub is_rdp: bool,
    pub is_console: bool,
    pub client_name: Option<String>,
    pub client_ip: Option<String>,
    pub display_name: Option<String>,
    pub last_activity: Option<Timestamp>,
    pub created_at: Timestamp,
    pub updated_at: Timestamp,
}

/// What the record of a session says.
pub struct UserSessionView {
    pub id: Seq<char>,
    pub user_name: Seq<char>,
    pub session_id: Seq<char>,
    pub logon_time: Timestamp,
    pub is_active: bool,
    pub is_rdp: bool,
    pub is_console: bool,
    pub client_name: Option<Seq<char>>,
    pub client_ip: Option<Seq<char>>,
    pub display_name: Option<Seq<char>>,
    pub last_activity: Option<Timestamp>,
    pub created_at: Timestamp,
    pub updated_at: Timestamp,
}

impl View for UserSession {
    type V = UserSessionView;

    open spec fn view(&self) -> UserSessionView {
        UserSessionView {
            id: self.id@,
            user_name: self.user_name@,
            session_id: self.session_id@,
            logon_time: self.logon_time,
            is_active: self.is_active,
            is_rdp: self.is_rdp,
            is_console: self.is_console,
            client_name: self.client_name.deep_view(),
            client_ip: self.client_ip.deep_view(),
            display_name: self.display_name.deep_view(),
            last_activity: self.last_activity,
            created_at: self.created_at,
            updated_at: self.updated_at,
        }
    }
}

/// A session as it is when it is first seen at `now`: active, last active
/// then, and with nothing known of the client.
pub open spec fn seen_session(
    id: Seq<char>,
    now: Timestamp,
    user_name: Seq<char>,
    session_id: Seq<char>,
    is_rdp: bool,
    is_console: bool,
) -> UserSessionView {
    UserSessionView {
        id,
        user_name,
        session_id,
        logon_time: now,
        is_active: true,
        is_rdp,
        is_console,
        client_name: None,
        client_ip: None,
        display_name: None,
        last_activity: Some(now),
        created_at: now,
        updated_at: now,
    }
}

impl UserSession {
    /// A session first seen now, under a fresh identifier.
    pub fn new(user_name: &str, session_id: &str, is_rdp: bool, is_console: bool) -> (session: Self)
        ensures
            session@ == seen_session(
                session@.id,
                session@.logon_time,
                user_name@,
                session_id@,
                is_rdp,
                is_console,
            ),
            session@.id.len() == 36,
    {
        UserSession::seen(new_id(), utc_now(), user_name, session_id, is_rdp, is_console)
    }

    /// A session first seen at `now`, under the identifier `id`.
    pub fn seen(
        id: String,
        now: Timestamp,
        user_name: &str,
        session_id: &str,
        is_rdp: bool,
        is_console: bool,
    ) -> (session: Self)
        ensures
            session@ == seen_session(id@, now, user_name@, session_id@, is_rdp, is_console),
    {
        UserSession {
            id,
            user_name: user_name.to_owned(),
            session_id: session_id.to_owned(),
            logon_time: now,
            is_active: true,
            is_rdp,
            is_console,
            client_name: None,
            client_ip: None,
            display_name: None,
            last_activity: Some(now),
            created_at: now,
            updated_at: now,
        }
    }
}

} // verus!
