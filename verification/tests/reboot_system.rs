use rebootreminder::reboot::system::{
    begin_reboot, countdown_message, next_reboot_step, RebootConfig, RebootOutcome, RebootStep,
    COUNTDOWN_TITLE, SHUTDOWN_ABORT_ARGUMENT, SHUTDOWN_RESTART_ARGUMENTS,
};

fn run(config: &RebootConfig, confirm: bool, trigger_works: bool, command_works: bool) -> (Vec<RebootStep>, RebootOutcome) {
    let mut steps = Vec::new();
    let mut step = begin_reboot(config);
    loop {
        let went_well = match step {
            RebootStep::AskConfirmation => confirm,
            RebootStep::TriggerReboot => trigger_works,
            RebootStep::RunShutdownCommand => command_works,
            RebootStep::Finished { outcome } => return (steps, outcome),
            _ => true,
        };
        steps.push(step);
        assert!(steps.len() < 1000);
        step = next_reboot_step(config, step, went_well);
    }
}

#[test]
fn the_default_settings_of_a_reboot() {
    let config = RebootConfig::default();
    assert_eq!(config.countdown_seconds, 30);
    assert!(config.show_confirmation);
    assert_eq!(config.confirmation_message, "The system needs to restart. Do you want to restart now?");
    assert_eq!(config.confirmation_title, "System Restart Required");
    assert_eq!(COUNTDOWN_TITLE, "System Restarting");
    assert_eq!(SHUTDOWN_RESTART_ARGUMENTS, ["/r", "/t", "0", "/f"]);
    assert_eq!(SHUTDOWN_ABORT_ARGUMENT, "/a");
}

#[test]
fn a_confirmed_reboot_counts_down_and_triggers() {
    let config = RebootConfig { countdown_seconds: 7, ..RebootConfig::default() };
    let (steps, outcome) = run(&config, true, true, true);
    assert_eq!(outcome, RebootOutcome::Initiated);
    assert_eq!(
        steps,
        vec![
            RebootStep::AskConfirmation,
            RebootStep::AnnounceCountdown,
            RebootStep::Sleep { remaining: 7, log: false },
            RebootStep::Sleep { remaining: 6, log: false },
            RebootStep::Sleep { remaining: 5, log: true },
            RebootStep::Sleep { remaining: 4, log: true },
            RebootStep::Sleep { remaining: 3, log: true },
            RebootStep::Sleep { remaining: 2, log: true },
            RebootStep::Sleep { remaining: 1, log: true },
            RebootStep::TriggerReboot,
        ]
    );
    let long = RebootConfig { countdown_seconds: 30, ..RebootConfig::default() };
    let (steps, _) = run(&long, true, true, true);
    let logged: Vec<u32> = steps
        .iter()
        .filter_map(|s| match s {
            RebootStep::Sleep { remaining, log: true } => Some(*remaining),
            _ => None,
        })
        .collect();
    assert_eq!(logged, vec![30, 25, 20, 15, 10, 5, 4, 3, 2, 1]);
    assert_eq!(steps.len(), 33);
}

#[test]
fn a_declined_reboot_does_nothing() {
    let (steps, outcome) = run(&RebootConfig::default(), false, true, true);
    assert_eq!(outcome, RebootOutcome::Declined);
    assert_eq!(steps, vec![RebootStep::AskConfirmation]);
}

#[test]
fn without_confirmation_and_countdown_the_reboot_is_triggered_at_once() {
    let config = RebootConfig {
        countdown_seconds: 0,
        show_confirmation: false,
        ..RebootConfig::default()
    };
    let (steps, outcome) = run(&config, false, true, true);
    assert_eq!(outcome, RebootOutcome::Initiated);
    assert_eq!(steps, vec![RebootStep::TriggerReboot]);
    let asked = RebootConfig { countdown_seconds: 0, ..RebootConfig::default() };
    let (steps, _) = run(&asked, true, true, true);
    assert_eq!(steps, vec![RebootStep::AskConfirmation, RebootStep::TriggerReboot]);
}

#[test]
fn the_shutdown_command_is_the_fallback() {
    let config = RebootConfig {
        countdown_seconds: 0,
        show_confirmation: false,
        ..RebootConfig::default()
    };
    let (steps, outcome) = run(&config, true, false, true);
    assert_eq!(outcome, RebootOutcome::Initiated);
    assert_eq!(steps, vec![RebootStep::TriggerReboot, RebootStep::RunShutdownCommand]);
    let (_, outcome) = run(&config, true, false, false);
    assert_eq!(outcome, RebootOutcome::Failed);
    let done = RebootStep::Finished { outcome: RebootOutcome::Failed };
    assert_eq!(next_reboot_step(&config, done, true), done);
}

#[test]
fn the_countdown_is_announced_in_seconds() {
    assert_eq!(
        countdown_message(30),
        "The system will restart in 30 seconds. Please save your work and close applications."
    );
    assert_eq!(
        countdown_message(u32::MAX),
        "The system will restart in 4294967295 seconds. Please save your work and close applications."
    );
}
