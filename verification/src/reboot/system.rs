//! Restarting the machine at the user's request: ask for confirmation, count
//! down, trigger the restart, and fall back to the `shutdown` command where
//! the trigger fails.
//!
//! The host carries out one step at a time and reports whether it went well;
//! `next_reboot_step` says which step follows.

use vstd::prelude::*;
use vstd::string::StringExecFns;
use crate::utils::text::{decimal, push_decimal};

verus! {

/// How the machine is restarted.
#[derive(Debug, Clone)]
pub struct RebootConfig {
    /// Seconds counted down before the restart; 0 for none.
    pub countdown_seconds: u32,
    /// Whether the user is asked before anything happens.
    pub show_confirmation: bool,
    pub confirmation_message: String,
    pub confirmation_title: String,
}

impl Default for RebootConfig {
    fn default() -> (config: Self)
        ensures
            config.countdown_seconds == 30,
            config.show_confirmation,
            config.confirmation_message@
                == "The system needs to restart. Do you want to restart now?"@,
            config.confirmation_title@ == "System Restart Required"@,
    {
        RebootConfig {
            countdown_seconds: 30,
            show_confirmation: true,
            confirmation_message: "The system needs to restart. Do you want to restart now?".to_owned(),
            confirmation_title: "System Restart Required".to_owned(),
        }
    }
}

/// The title of the window that announces the countdown.
pub const COUNTDOWN_TITLE: &'static str = "System Restarting";

/// The arguments with which `shutdown` restarts the machine at once.
pub const SHUTDOWN_RESTART_ARGUMENTS: [&'static str; 4] = ["/r", "/t", "0", "/f"];

/// The argument with which `shutdown` calls off a restart that is under way.
pub const SHUTDOWN_ABORT_ARGUMENT: &'static str = "/a";

/// How a request to restart the machine ended.
#[derive(Debug, Clone, Copy, PartialEq, Eq, Structural)]
pub enum RebootOutcome {
    /// The restart is under way.
    Initiated,
    /// The user said no.
    Declined,
    /// Neither the trigger nor the `shutdown` command worked.
    Failed,
}

/// One step of a restart.
#[derive(Debug, Clone, Copy, PartialEq, Eq, Structural)]
pub enum RebootStep {
    /// Ask the user whether to restart; the step goes well if the answer is
    /// yes.
    AskConfirmation,
    /// Tell the user that the countdown begins.
    AnnounceCountdown,
    /// Wait one second, `remaining` seconds of the countdown being left;
    /// `log` says whether the remaining time is worth a log line.
    Sleep { remaining: u32, log: bool },
    /// Trigger the restart.
    TriggerReboot,
    /// Run the `shutdown` command.
    RunShutdownCommand,
    Finished { outcome: RebootOutcome },
}

/// What the countdown window says.
pub open spec fn countdown_text(seconds: u32) -> Seq<char> {
    "The system will restart in "@ + decimal(seconds as nat)
        + " seconds. Please save your work and close applications."@
}

pub fn countdown_message(seconds: u32) -> (message: String)
    ensures
        message@ == countdown_text(seconds),
{
    let mut message = "The system will restart in ".to_owned();
    push_decimal(&mut message, seconds as u64);
    message.append(" seconds. Please save your work and close applications.");
    message
}

/// Whether the remaining time is worth a log line: every fifth second, and
/// each of the last five.
pub open spec fn logs_countdown(remaining: u32) -> bool {
    remaining % 5 == 0 || remaining <= 5
}

/// The step that waits with `remaining` seconds left.
pub open spec fn sleep_step(remaining: u32) -> RebootStep {
    RebootStep::Sleep { remaining, log: logs_countdown(remaining) }
}

/// The step that follows the confirmation, or stands in its place where
/// none is asked for.
pub open spec fn after_confirmation(config: RebootConfig) -> RebootStep {
    if config.countdown_seconds > 0 {
        RebootStep::AnnounceCountdown
    } else {
        RebootStep::TriggerReboot
    }
}

/// The first step of a restart.
pub open spec fn first_reboot_step(config: RebootConfig) -> RebootStep {
    if config.show_confirmation {
        RebootStep::AskConfirmation
    } else {
        after_confirmation(config)
    }
}

/// The step that follows `step`, which went well or did not.
pub open spec fn reboot_transition(config: RebootConfig, step: RebootStep, went_well: bool) -> RebootStep {
    match step {
        RebootStep::AskConfirmation => if went_well {
            after_confirmation(config)
        } else {
            RebootStep::Finished { outcome: RebootOutcome::Declined }
        },
        RebootStep::AnnounceCountdown => if config.countdown_seconds > 0 {
            sleep_step(config.countdown_seconds)
        } else {
            RebootStep::TriggerReboot
        },
        RebootStep::Sleep { remaining, .. } => if remaining > 1 {
            sleep_step((remaining - 1) as u32)
        } else {
            RebootStep::TriggerReboot
        },
        RebootStep::TriggerReboot => if went_well {
            RebootStep::Finished { outcome: RebootOutcome::Initiated }
        } else {
            RebootStep::RunShutdownCommand
        },
        RebootStep::RunShutdownCommand => if went_well {
            RebootStep::Finished { outcome: RebootOutcome::Initiated }
        } else {
            RebootStep::Finished { outcome: RebootOutcome::Failed }
        },
        RebootStep::Finished { outcome } => RebootStep::Finished { outcome },
    }
}

/// The largest number of steps that can still follow `step`.
pub open spec fn steps_left(config: RebootConfig, step: RebootStep) -> nat {
    match step {
        RebootStep::AskConfirmation => config.countdown_seconds as nat + 5,
        RebootStep::AnnounceCountdown => config.countdown_seconds as nat + 4,
        RebootStep::Sleep { remaining, .. } => remaining as nat + 3,
        RebootStep::TriggerReboot => 2,
        RebootStep::RunShutdownCommand => 1,
        RebootStep::Finished { .. } => 0,
    }
}

fn sleep_for(remaining: u32) -> (step: RebootStep)
    ensures
        step == sleep_step(remaining),
{
    RebootStep::Sleep { remaining, log: remaining % 5 == 0 || remaining <= 5 }
}

fn step_after_confirmation(config: &RebootConfig) -> (step: RebootStep)
    ensures
        step == after_confirmation(*config),
{
    if config.countdown_seconds > 0 {
        RebootStep::AnnounceCountdown
    } else {
        RebootStep::TriggerReboot
    }
}

/// The first step of a restart.
pub fn begin_reboot(config: &RebootConfig) -> (step: RebootStep)
    ensures
        step == first_reboot_step(*config),
{
    if config.show_confirmation {
        RebootStep::AskConfirmation
    } else {
        step_after_confirmation(config)
    }
}

/// The step that follows `step`, which went well or did not. Every step but
/// the last brings the restart nearer to its end.
pub fn next_reboot_step(config: &RebootConfig, step: RebootStep, went_well: bool) -> (next:
    RebootStep)
    ensures
        next == reboot_transition(*config, step, went_well),
        !(step is Finished) && (step matches RebootStep::Sleep { remaining, .. } ==> remaining
            <= config.countdown_seconds) ==> steps_left(*config, next) < steps_left(*config, step),
{
    match step {
        RebootStep::AskConfirmation => if went_well {
            step_after_confirmation(config)
        } else {
            RebootStep::Finished { outcome: RebootOutcome::Declined }
        },
        RebootStep::AnnounceCountdown => if config.countdown_seconds > 0 {
            sleep_for(config.countdown_seconds)
        } else {
            RebootStep::TriggerReboot
        },
        RebootStep::Sleep { remaining, .. } => if remaining > 1 {
            sleep_for(remaining - 1)
        } else {
            RebootStep::TriggerReboot
        },
        RebootStep::TriggerReboot => if went_well {
            RebootStep::Finished { outcome: RebootOutcome::Initiated }
        } else {
            RebootStep::RunShutdownCommand
        },
        RebootStep::RunShutdownCommand => if went_well {
            RebootStep::Finished { outcome: RebootOutcome::Initiated }
        } else {
            RebootStep::Finished { outcome: RebootOutcome::Failed }
        },
        RebootStep::Finished { outcome } => RebootStep::Finished { outcome },
    }
}

} // verus!
