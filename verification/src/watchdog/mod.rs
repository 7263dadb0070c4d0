//! The watchdog: it looks at the supervised service at intervals, restarts it
//! when it is down, and gives up after a bounded number of restarts.
//!
//! The host runs the loop. Once a second it asks `check_due`; when a check
//! is due it asks whether the service runs and hands the answer to
//! `on_liveness`, which says whether to go on, to restart the service and
//! then wait for the restart delay, or to end the loop.

pub mod power_events;
pub mod restart;

use vstd::prelude::*;
use crate::config::models::text_seconds;
use crate::config::models::timespan_setting;
use crate::watchdog::power_events::{event_forces_check, forces_check, PowerEvent};

verus! {

/// The settings of the watchdog, with its intervals in seconds.
#[derive(Debug, Clone)]
pub struct WatchdogConfig {
    pub enabled: bool,
    /// Seconds between two checks of the service.
    pub check_interval_seconds: u64,
    pub check_interval: Option<String>,
    /// After this many restarts without the service having been seen
    /// running, the watchdog gives up.
    pub max_restart_attempts: u32,
    /// Seconds to wait after a restart.
    pub restart_delay_seconds: u64,
    pub restart_delay: Option<String>,
    /// The executable of the supervised service.
    pub service_path: String,
    pub service_name: String,
}

impl Default for WatchdogConfig {
    fn default() -> (config: Self)
        ensures
            config.enabled,
            config.check_interval_seconds == 60,
            config.check_interval.deep_view() == Some("1m"@),
            config.max_restart_attempts == 3,
            config.restart_delay_seconds == 10,
            config.restart_delay.deep_view() == Some("10s"@),
            config.service_path@.len() == 0,
            config.service_name@ == "RebootReminder"@,
    {
        WatchdogConfig {
            enabled: true,
            check_interval_seconds: 60,
            check_interval: Some("1m".to_owned()),
            max_restart_attempts: 3,
            restart_delay_seconds: 10,
            restart_delay: Some("10s".to_owned()),
            service_path: String::new(),
            service_name: "RebootReminder".to_owned(),
        }
    }
}

/// The seconds of an interval that is configured as a timespan text, as a
/// number of seconds, or both: the text where it is a timespan that fits in
/// 64 bits, else the number, else `fallback`.
pub open spec fn interval_seconds(text: Option<String>, number: Option<u64>, fallback: u64) -> nat {
    match text_seconds(text) {
        Some(secs) => secs,
        None => match number {
            Some(n) => n as nat,
            None => fallback as nat,
        },
    }
}

fn resolve_interval(text: &Option<String>, number: Option<u64>, fallback: u64) -> (seconds: u64)
    ensures
        seconds == interval_seconds(*text, number, fallback),
{
    match timespan_setting(text) {
        Some(secs) => secs,
        None => match number {
            Some(n) => n,
            None => fallback,
        },
    }
}

fn copy_text(text: &Option<String>) -> (copy: Option<String>)
    ensures
        copy == *text,
{
    match text {
        Some(t) => Some(t.clone()),
        None => None,
    }
}

impl WatchdogConfig {
    /// The settings that the configuration `settings` asks for. The
    /// executable of the supervised service is `executable` where the
    /// configuration names none.
    pub fn from_settings(settings: &crate::config::models::WatchdogConfig, executable: &str) -> (config:
        Self)
        ensures
            config.enabled == settings.enabled,
            config.check_interval_seconds == interval_seconds(
                settings.check_interval,
                settings.check_interval_seconds,
                60,
            ),
            config.check_interval == settings.check_interval,
            config.max_restart_attempts == settings.max_restart_attempts,
            config.restart_delay_seconds == interval_seconds(
                settings.restart_delay,
                settings.restart_delay_seconds,
                10,
            ),
            config.restart_delay == settings.restart_delay,
            config.service_path@ == if settings.service_path@.len() == 0 {
                executable@
            } else {
                settings.service_path@
            },
            config.service_name == settings.service_name,
    {
        WatchdogConfig {
            enabled: settings.enabled,
            check_interval_seconds: resolve_interval(
                &settings.check_interval,
                settings.check_interval_seconds,
                60,
            ),
            check_interval: copy_text(&settings.check_interval),
            max_restart_attempts: settings.max_restart_attempts,
            restart_delay_seconds: resolve_interval(
                &settings.restart_delay,
                settings.restart_delay_seconds,
                10,
            ),
            restart_delay: copy_text(&settings.restart_delay),
            service_path: if settings.service_path.as_str().is_empty() {
                executable.to_owned()
            } else {
                settings.service_path.clone()
            },
            service_name: settings.service_name.clone(),
        }
    }
}

/// What the watchdog does after it has learnt whether the service runs.
#[derive(Debug, Clone, Copy, PartialEq, Eq, Structural)]
pub enum WatchdogAction {
    /// Go on with the loop.
    Continue,
    /// Restart the service, wait for the restart delay, and go on.
    Restart,
    /// End the loop: the restarts are used up.
    GiveUp,
}

/// Whether the service is to be checked, `elapsed_seconds` after the last
/// check: when a check interval has passed; when more than twice that has
/// passed, which suggests that the machine slept; or when a power event
/// says that the machine woke up.
pub open spec fn is_check_due(interval: u64, elapsed_seconds: u64, event: Option<PowerEvent>) -> bool {
    ||| elapsed_seconds >= interval
    ||| elapsed_seconds > 2 * interval
    ||| event is Some && forces_check(event.unwrap())
}

/// The number of restarts made since the service was last seen running, and
/// what the watchdog does, after an answer to the question whether the
/// service runs; `None` stands for an answer that could not be had.
pub open spec fn liveness_transition(max: u32, attempts: u32, alive: Option<bool>) -> (
    u32,
    WatchdogAction,
) {
    match alive {
        Some(true) => (0, WatchdogAction::Continue),
        Some(false) => if attempts >= max {
            (attempts, WatchdogAction::GiveUp)
        } else {
            ((attempts + 1) as u32, WatchdogAction::Restart)
        },
        None => (attempts, WatchdogAction::Continue),
    }
}

/// The number of restarts that the watchdog makes when it gets the answers
/// `answers` one after the other, having made `attempts` restarts before;
/// after it has given up it makes none.
pub open spec fn restarts_made(max: u32, attempts: u32, answers: Seq<Option<bool>>) -> nat
    decreases answers.len(),
{
    if answers.len() == 0 {
        0
    } else {
        let (next, action) = liveness_transition(max, attempts, answers[0]);
        match action {
            WatchdogAction::GiveUp => 0,
            WatchdogAction::Restart => 1 + restarts_made(max, next, answers.drop_first()),
            WatchdogAction::Continue => restarts_made(max, next, answers.drop_first()),
        }
    }
}

/// Whether the watchdog has given up by the end of `answers`.
pub open spec fn gives_up(max: u32, attempts: u32, answers: Seq<Option<bool>>) -> bool
    decreases answers.len(),
{
    if answers.len() == 0 {
        false
    } else {
        let (next, action) = liveness_transition(max, attempts, answers[0]);
        action == WatchdogAction::GiveUp || gives_up(max, next, answers.drop_first())
    }
}

/// While the service is never seen running, the watchdog makes no more
/// restarts than are left to it.
pub proof fn lemma_restarts_bounded(max: u32, attempts: u32, answers: Seq<Option<bool>>)
    requires
        attempts <= max,
        forall|i: int| 0 <= i < answers.len() ==> #[trigger] answers[i] != Some(true),
    ensures
        restarts_made(max, attempts, answers) <= max - attempts,
    decreases answers.len(),
{
    if answers.len() > 0 {
        let (next, action) = liveness_transition(max, attempts, answers[0]);
        if action != WatchdogAction::GiveUp {
            assert forall|i: int| 0 <= i < answers.drop_first().len() implies
                #[trigger] answers.drop_first()[i] != Some(true) by {
                assert(answers.drop_first()[i] == answers[i + 1]);
            }
            lemma_restarts_bounded(max, next, answers.drop_first());
        }
    }
}

/// When the service is found down every time, the watchdog restarts it
/// once for each answer until its restarts are used up, and gives up on the
/// answer after that.
pub proof fn lemma_down_every_time(max: u32, attempts: u32, answers: Seq<Option<bool>>)
    requires
        attempts <= max,
        forall|i: int| 0 <= i < answers.len() ==> #[trigger] answers[i] == Some(false),
    ensures
        restarts_made(max, attempts, answers) == if answers.len() <= max - attempts {
            answers.len()
        } else {
            (max - attempts) as nat
        },
        gives_up(max, attempts, answers) == (answers.len() > max - attempts),
    decreases answers.len(),
{
    if answers.len() > 0 {
        assert(answers[0] == Some(false));
        let (next, action) = liveness_transition(max, attempts, answers[0]);
        if action != WatchdogAction::GiveUp {
            assert forall|i: int| 0 <= i < answers.drop_first().len() implies
                #[trigger] answers.drop_first()[i] == Some(false) by {
                assert(answers.drop_first()[i] == answers[i + 1]);
            }
            lemma_down_every_time(max, next, answers.drop_first());
        }
    }
}

/// The watchdog and what it remembers between two checks.
#[derive(Debug)]
pub struct Watchdog {
    config: WatchdogConfig,
    running: bool,
    restart_attempts: u32,
}

impl Watchdog {
    pub closed spec fn config(&self) -> WatchdogConfig {
        self.config
    }

    /// Whether the loop is to go on.
    pub closed spec fn is_running(&self) -> bool {
        self.running
    }

    /// The number of restarts made since the service was last seen running.
    pub closed spec fn restart_attempts(&self) -> u32 {
        self.restart_attempts
    }

    /// A watchdog that has not been started.
    pub fn new(config: WatchdogConfig) -> (watchdog: Self)
        ensures
            watchdog.config() == config,
            !watchdog.is_running(),
            watchdog.restart_attempts() == 0,
    {
        Watchdog { config, running: false, restart_attempts: 0 }
    }

    /// Starts the watchdog, unless it is disabled; says whether the loop is
    /// to run.
    pub fn start(&mut self) -> (started: bool)
        ensures
            started == old(self).config().enabled,
            final(self).config() == old(self).config(),
            final(self).is_running() == (old(self).is_running() || started),
            final(self).restart_attempts() == if started {
                0
            } else {
                old(self).restart_attempts()
            },
    {
        if !self.config.enabled {
            return false;
        }
        self.running = true;
        self.restart_attempts = 0;
        true
    }

    /// Stops the watchdog: the loop ends at its next turn.
    pub fn stop(&mut self)
        ensures
            !final(self).is_running(),
            final(self).config() == old(self).config(),
            final(self).restart_attempts() == old(self).restart_attempts(),
    {
        self.running = false;
    }

    pub fn running(&self) -> (running: bool)
        ensures
            running == self.is_running(),
    {
        self.running
    }

    pub fn attempts(&self) -> (attempts: u32)
        ensures
            attempts == self.restart_attempts(),
    {
        self.restart_attempts
    }

    /// Seconds to wait after a restart.
    pub fn restart_delay(&self) -> (seconds: u64)
        ensures
            seconds == self.config().restart_delay_seconds,
    {
        self.config.restart_delay_seconds
    }

    /// Whether the service is to be checked now, `elapsed_seconds` after
    /// the last check, `event` being the power event that has come in, if
    /// one has.
    pub fn check_due(&self, elapsed_seconds: u64, event: Option<PowerEvent>) -> (due: bool)
        ensures
            due == is_check_due(self.config().check_interval_seconds, elapsed_seconds, event),
    {
        let interval = self.config.check_interval_seconds;
        let long_gap = match interval.checked_mul(2) {
            Some(twice) => elapsed_seconds > twice,
            None => false,
        };
        let woke_up = match event {
            Some(e) => event_forces_check(e),
            None => false,
        };
        elapsed_seconds >= interval || long_gap || woke_up
    }

    /// Takes in the answer to the question whether the service runs, and
    /// says what to do. A restart counts as made when it is decided, whether
    /// or not it then succeeds; when the restarts are used up, the watchdog
    /// stops for good.
    pub fn on_liveness(&mut self, alive: Option<bool>) -> (action: WatchdogAction)
        ensures
            (final(self).restart_attempts(), action) == liveness_transition(
                old(self).config().max_restart_attempts,
                old(self).restart_attempts(),
                alive,
            ),
            final(self).config() == old(self).config(),
            final(self).is_running() == (old(self).is_running() && action
                != WatchdogAction::GiveUp),
            action == WatchdogAction::Restart ==> old(self).restart_attempts() < old(
                self,
            ).config().max_restart_attempts,
            old(self).restart_attempts() <= old(self).config().max_restart_attempts
                ==> final(self).restart_attempts() <= old(self).config().max_restart_attempts,
    {
        match alive {
            Some(true) => {
                self.restart_attempts = 0;
                WatchdogAction::Continue
            },
            Some(false) => {
                if self.restart_attempts >= self.config.max_restart_attempts {
                    self.running = false;
                    WatchdogAction::GiveUp
                } else {
                    self.restart_attempts = self.restart_attempts + 1;
                    WatchdogAction::Restart
                }
            },
            None => WatchdogAction::Continue,
        }
    }
}

} // verus!
