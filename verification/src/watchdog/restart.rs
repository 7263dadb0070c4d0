//! Restarting the supervised service: stop it if it runs, wait for it to have
//! stopped, start it, and wait for it to run. Each wait asks for the status
//! once a second and gives up after a fixed number of polls.
//!
//! The host carries out one command at a time and reports what came of it;
//! `next_step` says what to do then.

use vstd::prelude::*;

verus! {

/// How often the status is asked for, at most, while waiting for the service
/// to have stopped, and again while waiting for it to run.
pub const MAX_STATUS_POLLS: u32 = 30;

/// The state of the supervised service, as far as the restart looks at it.
#[derive(Debug, Clone, Copy, PartialEq, Eq, Structural)]
pub enum ServiceStatus {
    Running,
    Stopped,
    /// Any state in between.
    Other,
}

/// Where a restart stands.
#[derive(Debug, Clone, Copy, PartialEq, Eq, Structural)]
pub enum RestartPhase {
    /// The status has been asked for, for the first time.
    Querying,
    /// The service has been told to stop.
    Stopping,
    /// The restart waits for the service to have stopped, and has asked for
    /// the status `polls` times already.
    AwaitingStop { polls: u32 },
    /// The service has been told to start.
    Starting,
    /// The restart waits for the service to run, and has asked for the
    /// status `polls` times already.
    AwaitingStart { polls: u32 },
}

/// What came of the last command.
#[derive(Debug, Clone, Copy, PartialEq, Eq, Structural)]
pub enum CommandResult {
    /// The command went through. Asking for the status and telling the
    /// service to stop report the `status` it then has; after telling it
    /// to start, the status is not looked at.
    Done { status: ServiceStatus },
    /// The command failed.
    Failed,
}

/// Why a restart did not succeed.
#[derive(Debug, Clone, Copy, PartialEq, Eq, Structural)]
pub enum RestartError {
    QueryFailed,
    StopFailed,
    StartFailed,
    StopTimedOut,
    StartTimedOut,
}

/// What the host does next.
#[derive(Debug, Clone, Copy, PartialEq, Eq, Structural)]
pub enum RestartStep {
    /// Tell the service to stop.
    Stop,
    /// Tell the service to start.
    Start,
    /// Wait a second, then ask for the status.
    WaitAndQuery,
    /// The restart is over: the service runs again.
    Succeeded,
    /// The restart is over, and has not brought the service back.
    Failed { error: RestartError },
}

/// The phase in which a restart begins; the host begins by asking for the
/// status.
pub fn begin_restart() -> (phase: RestartPhase)
    ensures
        phase == RestartPhase::Querying,
{
    RestartPhase::Querying
}

/// What follows a wait for the status `wanted` in which the status was
/// asked for `polls` times and the last answer was `status`.
pub open spec fn after_poll(
    polling_start: bool,
    polls: u32,
    status: ServiceStatus,
) -> (RestartPhase, RestartStep) {
    let wanted = if polling_start {
        ServiceStatus::Running
    } else {
        ServiceStatus::Stopped
    };
    if status == wanted {
        if polling_start {
            (RestartPhase::AwaitingStart { polls }, RestartStep::Succeeded)
        } else {
            (RestartPhase::Starting, RestartStep::Start)
        }
    } else if polls >= MAX_STATUS_POLLS {
        if polling_start {
            (
                RestartPhase::AwaitingStart { polls },
                RestartStep::Failed { error: RestartError::StartTimedOut },
            )
        } else {
            (
                RestartPhase::AwaitingStop { polls },
                RestartStep::Failed { error: RestartError::StopTimedOut },
            )
        }
    } else if polling_start {
        (RestartPhase::AwaitingStart { polls }, RestartStep::WaitAndQuery)
    } else {
        (RestartPhase::AwaitingStop { polls }, RestartStep::WaitAndQuery)
    }
}

/// The phase that follows `phase` on `result`, and what the host does next.
pub open spec fn restart_transition(phase: RestartPhase, result: CommandResult) -> (
    RestartPhase,
    RestartStep,
) {
    match phase {
        RestartPhase::Querying => match result {
            CommandResult::Failed => (
                phase,
                RestartStep::Failed { error: RestartError::QueryFailed },
            ),
            CommandResult::Done { status } => if status == ServiceStatus::Running {
                (RestartPhase::Stopping, RestartStep::Stop)
            } else {
                (RestartPhase::Starting, RestartStep::Start)
            },
        },
        RestartPhase::Stopping => match result {
            CommandResult::Failed => (
                phase,
                RestartStep::Failed { error: RestartError::StopFailed },
            ),
            CommandResult::Done { status } => after_poll(false, 0, status),
        },
        RestartPhase::AwaitingStop { polls } => match result {
            CommandResult::Failed => (
                phase,
                RestartStep::Failed { error: RestartError::QueryFailed },
            ),
            CommandResult::Done { status } => if polls >= MAX_STATUS_POLLS {
                (phase, RestartStep::Failed { error: RestartError::StopTimedOut })
            } else {
                after_poll(false, (polls + 1) as u32, status)
            },
        },
        RestartPhase::Starting => match result {
            CommandResult::Failed => (
                phase,
                RestartStep::Failed { error: RestartError::StartFailed },
            ),
            CommandResult::Done { .. } => (
                RestartPhase::AwaitingStart { polls: 0 },
                RestartStep::WaitAndQuery,
            ),
        },
        RestartPhase::AwaitingStart { polls } => match result {
            CommandResult::Failed => (
                phase,
                RestartStep::Failed { error: RestartError::QueryFailed },
            ),
            CommandResult::Done { status } => if polls >= MAX_STATUS_POLLS {
                (phase, RestartStep::Failed { error: RestartError::StartTimedOut })
            } else {
                after_poll(true, (polls + 1) as u32, status)
            },
        },
    }
}

/// How often the status has been asked for in the wait of `phase`.
pub open spec fn polls_of(phase: RestartPhase) -> nat {
    match phase {
        RestartPhase::AwaitingStop { polls } => polls as nat,
        RestartPhase::AwaitingStart { polls } => polls as nat,
        _ => 0,
    }
}

fn poll_outcome(polling_start: bool, polls: u32, status: ServiceStatus) -> (next: (
    RestartPhase,
    RestartStep,
))
    ensures
        next == after_poll(polling_start, polls, status),
{
    let reached = if polling_start {
        status == ServiceStatus::Running
    } else {
        status == ServiceStatus::Stopped
    };
    if reached {
        if polling_start {
            (RestartPhase::AwaitingStart { polls }, RestartStep::Succeeded)
        } else {
            (RestartPhase::Starting, RestartStep::Start)
        }
    } else if polls >= MAX_STATUS_POLLS {
        if polling_start {
            (
                RestartPhase::AwaitingStart { polls },
                RestartStep::Failed { error: RestartError::StartTimedOut },
            )
        } else {
            (
                RestartPhase::AwaitingStop { polls },
                RestartStep::Failed { error: RestartError::StopTimedOut },
            )
        }
    } else if polling_start {
        (RestartPhase::AwaitingStart { polls }, RestartStep::WaitAndQuery)
    } else {
        (RestartPhase::AwaitingStop { polls }, RestartStep::WaitAndQuery)
    }
}

/// The phase that follows `phase` when the last command came back with
/// `result`, and what the host does next. In no wait is the status asked for
/// more often than `MAX_STATUS_POLLS` times.
pub fn next_step(phase: RestartPhase, result: CommandResult) -> (next: (RestartPhase, RestartStep))
    ensures
        next == restart_transition(phase, result),
        polls_of(phase) <= MAX_STATUS_POLLS ==> polls_of(next.0) <= MAX_STATUS_POLLS,
        next.1 == RestartStep::WaitAndQuery ==> polls_of(next.0) < MAX_STATUS_POLLS,
{
    match phase {
        RestartPhase::Querying => match result {
            CommandResult::Failed => (
                phase,
                RestartStep::Failed { error: RestartError::QueryFailed },
            ),
            CommandResult::Done { status } => if status == ServiceStatus::Running {
                (RestartPhase::Stopping, RestartStep::Stop)
            } else {
                (RestartPhase::Starting, RestartStep::Start)
            },
        },
        RestartPhase::Stopping => match result {
            CommandResult::Failed => (
                phase,
                RestartStep::Failed { error: RestartError::StopFailed },
            ),
            CommandResult::Done { status } => poll_outcome(false, 0, status),
        },
        RestartPhase::AwaitingStop { polls } => match result {
            CommandResult::Failed => (
                phase,
                RestartStep::Failed { error: RestartError::QueryFailed },
            ),
            CommandResult::Done { status } => if polls >= MAX_STATUS_POLLS {
                (phase, RestartStep::Failed { error: RestartError::StopTimedOut })
            } else {
                poll_outcome(false, polls + 1, status)
            },
        },
        RestartPhase::Starting => match result {
            CommandResult::Failed => (
                phase,
                RestartStep::Failed { error: RestartError::StartFailed },
            ),
            CommandResult::Done { .. } => (
                RestartPhase::AwaitingStart { polls: 0 },
                RestartStep::WaitAndQuery,
            ),
        },
        RestartPhase::AwaitingStart { polls } => match result {
            CommandResult::Failed => (
                phase,
                RestartStep::Failed { error: RestartError::QueryFailed },
            ),
            CommandResult::Done { status } => if polls >= MAX_STATUS_POLLS {
                (phase, RestartStep::Failed { error: RestartError::StartTimedOut })
            } else {
                poll_outcome(true, polls + 1, status)
            },
        },
    }
}

} // verus!
