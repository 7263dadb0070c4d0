//! One detection cycle of the service: how the reboot state moves when a
//! detection result comes in, and what the user is then shown.
//!
//! The host runs the loop: it reads the clock, asks `detection_due`, runs the
//! detection, hands the result to `run_cycle`, writes the returned state with
//! its evidence in one transaction, appends the history entry if there is
//! one, and carries out the action.

use vstd::prelude::*;
use crate::config::models::{text_seconds, timespan_setting, Config, RebootConfig, TimeframeConfig};
use crate::database::models::{
    first_state, new_id, plain_entry, sources_view, RebootHistory, RebootSource, RebootState,
    RebootStateView,
};
use crate::reboot::scheduler::{
    hours_since_required, is_hours_since_required, is_selected_tier, reminder_interval,
    reminder_interval_seconds, select_timeframe,
};
use crate::time::{saturating_after, Timestamp};

verus! {

/// What the user is shown after a cycle.
#[derive(Debug, Clone)]
pub enum CycleAction {
    /// A reminder is due: show `message` with the action `action`, mark the
    /// tray as "reboot required", enable the reboot and postpone options, and
    /// offer the deferrals of the tier at index `tier`.
    Remind { message: String, action: String, tier: usize },
    /// No reboot is required: mark the tray so and disable the options.
    Clear,
    /// A reboot is required, but no reminder is due yet.
    Wait,
}

/// What a cycle decides.
#[derive(Debug, Clone)]
pub struct CycleOutcome {
    /// The state to write, together with its evidence.
    pub state: RebootState,
    /// The entry to append to the history, where the cycle saw that the
    /// reboot has happened.
    pub history: Option<RebootHistory>,
    pub action: CycleAction,
}

/// The hours between two detections: the lower bound of the first tier, as
/// its timespan text has it or else its number of hours, or 24.
pub open spec fn detection_interval_hours(first: TimeframeConfig) -> nat {
    match text_seconds(first.min_timespan) {
        Some(secs) => secs / 3600,
        None => match first.min_hours {
            Some(hours) => hours as nat,
            None => 24,
        },
    }
}

/// Whether a detection is due at `now`, the last one having been made at
/// `last_check`.
pub fn detection_due(config: &RebootConfig, last_check: Timestamp, now: Timestamp) -> (due: bool)
    requires
        config.timeframes@.len() > 0,
    ensures
        due == (now.secs - last_check.secs >= detection_interval_hours(config.timeframes@[0]) * 3600),
{
    let first = &config.timeframes[0];
    let hours: u64 = match timespan_setting(&first.min_timespan) {
        Some(secs) => secs / 3600,
        None => match first.min_hours {
            Some(hours) => hours as u64,
            None => 24,
        },
    };
    let elapsed: i128 = now.secs as i128 - last_check.secs as i128;
    elapsed >= hours as i128 * 3600
}

/// Whether the configuration is to be read again at `now`, having been
/// read at `last_refresh`: when `refresh_minutes` minutes have passed.
pub fn refresh_due(last_refresh: Timestamp, now: Timestamp, refresh_minutes: u32) -> (due: bool)
    ensures
        due == (now.secs - last_refresh.secs >= refresh_minutes * 60),
{
    let elapsed: i128 = now.secs as i128 - last_refresh.secs as i128;
    elapsed >= refresh_minutes as i128 * 60
}

/// The code with which the system says that the process was not started
/// by the service manager.
pub const NOT_STARTED_AS_SERVICE: i32 = 1063;

/// What is done when the service dispatcher cannot be started.
#[derive(Debug, Clone, Copy, PartialEq, Eq, Structural)]
pub enum DispatcherFallback {
    /// The process was started by hand: run the service in it directly.
    RunDirectly,
    /// Give up.
    Fail,
}

/// What is done when the service dispatcher cannot be started, `os_error`
/// being the code of the system error behind the failure, if there is one.
pub fn after_dispatcher_failure(os_error: Option<i32>) -> (fallback: DispatcherFallback)
    ensures
        fallback == if os_error == Some(NOT_STARTED_AS_SERVICE) {
            DispatcherFallback::RunDirectly
        } else {
            DispatcherFallback::Fail
        },
{
    match os_error {
        Some(code) => if code == NOT_STARTED_AS_SERVICE {
            DispatcherFallback::RunDirectly
        } else {
            DispatcherFallback::Fail
        },
        None => DispatcherFallback::Fail,
    }
}

/// Whether a reminder is due at `now`: a reboot is required, and the time of
/// the next reminder, where one was set, has come.
pub open spec fn reminder_due(previous: RebootStateView, required: bool, now: Timestamp) -> bool {
    required && match previous.next_reminder_time {
        Some(time) => now.secs >= time.secs,
        None => true,
    }
}

/// The action offered with a reminder: an immediate reboot where the user
/// may start one, else the configured hint.
pub open spec fn reminder_action(config: Config) -> Seq<char> {
    if config.reboot.system_reboot.enabled {
        "reboot:now"@
    } else {
        config.notification.messages.action_required@
    }
}

/// The state after a detection at `now` with the result `required` and
/// the evidence `sources`, the next reminder being due at `next_reminder`.
/// The time since which a reboot is required is set when the reboot becomes
/// required and cleared when it is resolved; the count of postponements is
/// cleared with it. The evidence takes the place of what was there.
pub open spec fn next_state(
    previous: RebootStateView,
    required: bool,
    sources: Seq<RebootSource>,
    now: Timestamp,
    next_reminder: Option<Timestamp>,
) -> RebootStateView {
    let became_required = !previous.reboot_required && required;
    let was_resolved = previous.reboot_required && !required;
    RebootStateView {
        reboot_required: required,
        last_check_time: now,
        updated_at: now,
        sources: sources_view(sources),
        reboot_required_since: if became_required {
            Some(now)
        } else if was_resolved {
            None
        } else {
            previous.reboot_required_since
        },
        postpone_count: if was_resolved {
            0
        } else {
            previous.postpone_count
        },
        next_reminder_time: next_reminder,
        ..previous
    }
}

/// Whether `outcome` is what a cycle decides at `now` for the detection
/// result `required` with the evidence `sources`, coming from the state
/// `previous`, where a history entry would get the identifier `history_id`.
///
/// A reboot that is resolved yields one history entry, of a successful
/// reboot at `now`. Without a required reboot the user is told so. With
/// one, a reminder is shown if it is due: its tier is the one selected for
/// the hours since the earliest detection, and the next reminder is set one
/// reminder interval of that tier after `now`, or at the last time that
/// can be written where that comes first. Where a reminder is due and the
/// configuration has no tier, nothing is shown and no reminder is set.
pub open spec fn is_cycle_outcome(
    config: Config,
    previous: RebootStateView,
    required: bool,
    sources: Seq<RebootSource>,
    now: Timestamp,
    history_id: Seq<char>,
    outcome: CycleOutcome,
) -> bool {
    let state = outcome.state@;
    &&& state == next_state(previous, required, sources, now, state.next_reminder_time)
    &&& outcome.state.sources@ == sources
    &&& if previous.reboot_required && !required {
        outcome.history is Some && outcome.history.unwrap()@ == plain_entry(history_id, now, true)
    } else {
        outcome.history is None
    }
    &&& if !required {
        outcome.action is Clear && state.next_reminder_time is None
    } else if !reminder_due(previous, required, now) {
        outcome.action is Wait && state.next_reminder_time == previous.next_reminder_time
    } else if config.reboot.timeframes@.len() == 0 {
        outcome.action is Wait && state.next_reminder_time is None
    } else {
        exists|hours: int, tier: int|
            #![trigger is_selected_tier(config.reboot.timeframes@, hours, tier)]
            {
                &&& is_hours_since_required(sources, now, hours)
                &&& is_selected_tier(config.reboot.timeframes@, hours, tier)
                &&& outcome.action matches CycleAction::Remind { message, action, tier: chosen }
                &&& chosen == tier
                &&& message@ == config.notification.messages.reboot_required@
                &&& action@ == reminder_action(config)
                &&& state.next_reminder_time == Some(
                    saturating_after(now, reminder_interval(config.reboot.timeframes@[tier])),
                )
            }
    }
}

/// Decides a cycle, coming from the state `previous`.
///
/// The state that comes out records the detection: it requires a reboot
/// exactly if the detection does, since `now` where the reboot has just
/// become required, and since no time where none is required. A history
/// entry comes out exactly when a required reboot is found resolved. What
/// holds of every state that the service writes holds of the state that
/// comes out if it held of `previous`.
pub fn evaluate_detection(
    config: &Config,
    previous: RebootState,
    required: bool,
    sources: Vec<RebootSource>,
    now: Timestamp,
    history_id: String,
) -> (outcome: CycleOutcome)
    ensures
        is_cycle_outcome(*config, previous@, required, sources@, now, history_id@, outcome),
        outcome.state.reboot_required == required,
        outcome.state.last_check_time == now,
        outcome.state.updated_at == now,
        !previous.reboot_required && required ==> outcome.state.reboot_required_since == Some(now),
        !required ==> outcome.state.next_reminder_time is None,
        previous.reboot_required && !required ==> outcome.state.reboot_required_since is None,
        outcome.history is Some <==> previous.reboot_required && !required,
        previous.wf() ==> outcome.state.wf(),
        outcome.state.next_reminder_time is Some ==> outcome.state.next_reminder_time.unwrap().secs
            >= outcome.state.last_check_time.secs,
{
    let became_required = !previous.reboot_required && required;
    let was_resolved = previous.reboot_required && !required;
    let due = required && match previous.next_reminder_time {
        Some(time) => now.secs >= time.secs,
        None => true,
    };
    let mut state = previous;
    if became_required {
        state.reboot_required_since = Some(now);
    } else if was_resolved {
        state.reboot_required_since = None;
        state.postpone_count = 0;
    }
    state.reboot_required = required;
    state.last_check_time = now;
    state.updated_at = now;
    state.sources = sources;
    let history = if was_resolved {
        Some(RebootHistory::recorded(history_id, now, true))
    } else {
        None
    };
    let action = if !required {
        state.next_reminder_time = None;
        CycleAction::Clear
    } else if !due {
        CycleAction::Wait
    } else {
        let hours = hours_since_required(&state, now);
        match select_timeframe(&config.reboot, hours) {
            None => {
                state.next_reminder_time = None;
                CycleAction::Wait
            },
            Some(tier) => {
                let interval = reminder_interval_seconds(&config.reboot.timeframes[tier]);
                state.next_reminder_time = Some(now.saturating_add_secs(interval));
                let action = if config.reboot.system_reboot.enabled {
                    "reboot:now".to_owned()
                } else {
                    config.notification.messages.action_required.clone()
                };
                proof {
                    assert(is_selected_tier(config.reboot.timeframes@, hours as int, tier as int));
                }
                CycleAction::Remind {
                    message: config.notification.messages.reboot_required.clone(),
                    action,
                    tier,
                }
            },
        }
    };
    CycleOutcome { state, history, action }
}

/// Whether `outcome` is what a cycle decides for some identifier of a
/// history entry, coming from the state `previous` or, where there is none,
/// from a first state made at `now` that records the detection result.
pub open spec fn is_run_outcome(
    config: Config,
    previous: Option<RebootStateView>,
    required: bool,
    sources: Seq<RebootSource>,
    now: Timestamp,
    outcome: CycleOutcome,
) -> bool {
    match previous {
        Some(state) => exists|history_id: Seq<char>|
            #[trigger] is_cycle_outcome(config, state, required, sources, now, history_id, outcome),
        None => exists|id: Seq<char>, history_id: Seq<char>|
            #[trigger] is_cycle_outcome(
                config,
                first_state(id, now, required, false),
                required,
                sources,
                now,
                history_id,
                outcome,
            ),
    }
}

/// Decides a cycle. Where there is no state yet, the cycle starts from a
/// first state made at `now` that records the detection result, so that a
/// reboot that this first detection requires is required since `now`. The
/// identifiers that are needed are drawn here.
pub fn run_cycle(
    config: &Config,
    previous: Option<RebootState>,
    required: bool,
    sources: Vec<RebootSource>,
    now: Timestamp,
) -> (outcome: CycleOutcome)
    ensures
        is_run_outcome(
            *config,
            match previous {
                Some(state) => Some(state@),
                None => None,
            },
            required,
            sources@,
            now,
            outcome,
        ),
        outcome.state.reboot_required == required,
        outcome.state.last_check_time == now,
        outcome.state.updated_at == now,
        !required ==> outcome.state.next_reminder_time is None,
        !required && (previous is None || previous.unwrap().reboot_required)
            ==> outcome.state.reboot_required_since is None,
        required && (previous is None || !previous.unwrap().reboot_required)
            ==> outcome.state.reboot_required_since == Some(now),
        outcome.history is Some <==> previous is Some && previous.unwrap().reboot_required
            && !required,
        previous is None ==> outcome.state.created_at == now && outcome.state@.id.len() == 36,
        previous is None || previous.unwrap().wf() ==> outcome.state.wf(),
        outcome.state.next_reminder_time is Some ==> outcome.state.next_reminder_time.unwrap().secs
            >= outcome.state.last_check_time.secs,
{
    let start = match previous {
        Some(state) => state,
        None => RebootState::first(new_id(), now, required, false),
    };
    let history_id = new_id();
    let ghost start_view = start@;
    let outcome = evaluate_detection(config, start, required, sources, now, history_id);
    proof {
        if previous is None {
            assert(is_cycle_outcome(
                *config,
                first_state(start_view.id, now, required, false),
                required,
                sources@,
                now,
                history_id@,
                outcome,
            ));
        } else {
            assert(is_cycle_outcome(
                *config,
                previous.unwrap()@,
                required,
                sources@,
                now,
                history_id@,
                outcome,
            ));
        }
    }
    outcome
}

/// A state in which no reboot is required becomes, on a detection that
/// requires one, a state that requires it since the time of that detection;
/// when a later detection requires none, that time is cleared again, and of
/// the two cycles only the second yields a history entry.
pub proof fn lemma_required_then_resolved(
    config: Config,
    start: RebootStateView,
    sources1: Seq<RebootSource>,
    now1: Timestamp,
    id1: Seq<char>,
    first: CycleOutcome,
    sources2: Seq<RebootSource>,
    now2: Timestamp,
    id2: Seq<char>,
    second: CycleOutcome,
)
    requires
        !start.reboot_required,
        is_cycle_outcome(config, start, true, sources1, now1, id1, first),
        is_cycle_outcome(config, first.state@, false, sources2, now2, id2, second),
    ensures
        first.state.reboot_required,
        first.state.reboot_required_since == Some(now1),
        first.history is None,
        !second.state.reboot_required,
        second.state.reboot_required_since is None,
        second.state.next_reminder_time is None,
        second.history is Some,
        second.history.unwrap()@ == plain_entry(id2, now2, true),
{
}

} // verus!
