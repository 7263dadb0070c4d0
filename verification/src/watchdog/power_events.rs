//! Power events: how a resume from sleep is recognised, and the queue through
//! which the watchdog hears of it.

use vstd::prelude::*;

verus! {

/// A change in the machine's power state.
#[derive(Debug, Clone, Copy, PartialEq, Eq, Structural)]
pub enum PowerEvent {
    /// The machine resumes from sleep or hibernation.
    Resume,
    /// The machine goes to sleep or hibernation.
    Suspend,
    DisplayOn,
    DisplayOff,
    Unknown,
}

/// Seconds between two polls of the power monitor.
pub const POLL_INTERVAL_SECONDS: u64 = 5;

/// A gap between two polls of more than this many seconds is taken for a
/// resume.
pub const RESUME_GAP_SECONDS: u64 = 30;

/// Whether an event makes the watchdog check the service at once.
pub open spec fn forces_check(event: PowerEvent) -> bool {
    event == PowerEvent::Resume || event == PowerEvent::DisplayOn
}

pub fn event_forces_check(event: PowerEvent) -> (forced: bool)
    ensures
        forced == forces_check(event),
{
    match event {
        PowerEvent::Resume => true,
        PowerEvent::DisplayOn => true,
        _ => false,
    }
}

/// The events that have been seen and not yet been looked at, oldest first.
#[derive(Debug)]
pub struct PowerEventChecker {
    pending: Vec<PowerEvent>,
}

impl View for PowerEventChecker {
    type V = Seq<PowerEvent>;

    closed spec fn view(&self) -> Seq<PowerEvent> {
        self.pending@
    }
}

impl PowerEventChecker {
    /// Takes the oldest event that has not been looked at, if there is one.
    pub fn check_events(&mut self) -> (event: Option<PowerEvent>)
        ensures
            old(self)@.len() == 0 ==> event is None && final(self)@ == old(self)@,
            old(self)@.len() > 0 ==> event == Some(old(self)@[0]) && final(self)@ == old(
                self,
            )@.drop_first(),
    {
        if self.pending.len() == 0 {
            None
        } else {
            let event = self.pending.remove(0);
            proof {
                assert(self.pending@ =~= old(self).pending@.drop_first());
            }
            Some(event)
        }
    }

    /// Puts an event behind those that wait.
    pub fn push(&mut self, event: PowerEvent)
        ensures
            final(self)@ == old(self)@.push(event),
    {
        self.pending.push(event);
    }
}

/// Watches for resumes by the time that passes between its polls.
#[derive(Debug)]
pub struct PowerMonitor {
    running: bool,
}

impl PowerMonitor {
    pub closed spec fn is_running(&self) -> bool {
        self.running
    }

    /// A monitor that has not been started.
    pub fn new() -> (monitor: Self)
        ensures
            !monitor.is_running(),
    {
        PowerMonitor { running: false }
    }

    /// Starts the monitor; says whether it was started by this call, which
    /// it is not where it ran already.
    pub fn start(&mut self) -> (started: bool)
        ensures
            final(self).is_running(),
            started == !old(self).is_running(),
    {
        let started = !self.running;
        self.running = true;
        started
    }

    /// Stops the monitor.
    pub fn stop(&mut self)
        ensures
            !final(self).is_running(),
    {
        self.running = false;
    }

    /// What a poll sees that comes `elapsed_seconds` after the one before
    /// it: a resume where the gap is too long for a machine that was awake.
    pub fn observe(&self, elapsed_seconds: u64) -> (event: Option<PowerEvent>)
        ensures
            event == if elapsed_seconds > RESUME_GAP_SECONDS {
                Some(PowerEvent::Resume)
            } else {
                None::<PowerEvent>
            },
    {
        if elapsed_seconds > RESUME_GAP_SECONDS {
            Some(PowerEvent::Resume)
        } else {
            None
        }
    }

    /// A queue for the events of this monitor, with nothing in it yet.
    pub fn create_checker(&self) -> (checker: PowerEventChecker)
        ensures
            checker@.len() == 0,
    {
        PowerEventChecker { pending: Vec::new() }
    }
}

} // verus!
