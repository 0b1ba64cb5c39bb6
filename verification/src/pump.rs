use vstd::prelude::*;

verus! {

/// Longest wait of one round of completion processing, in milliseconds.
pub const PUMP_TIMEOUT_MS: u64 = 100;

/// What the pump thread does between two rounds. It never stops.
#[derive(Debug, Clone, Copy, PartialEq, Eq, Structural)]
pub enum PumpStep {
    /// Start the next round.
    Continue,
    /// Log the failure of the round, then start the next one.
    ReportAndContinue,
}

/// The record of the one thread that lets the native layer deliver
/// completions. It is started once and runs for the rest of the process.
#[derive(Debug)]
pub struct EventPump {
    started: bool,
}

impl EventPump {
    /// The thread has been started.
    pub closed spec fn running(&self) -> bool {
        self.started
    }

    /// A pump whose thread has not been started.
    pub fn new() -> (r: EventPump)
        ensures
            !r.running(),
    {
        EventPump { started: false }
    }

    /// Whether the thread has been started.
    pub fn is_running(&self) -> (r: bool)
        ensures
            r == self.running(),
    {
        self.started
    }

    /// Marks the pump as running and tells whether the caller has to spawn
    /// the thread: only the first call says so.
    pub fn start(&mut self) -> (spawn: bool)
        ensures
            final(self).running(),
            spawn == !old(self).running(),
    {
        let spawn = !self.started;
        self.started = true;
        spawn
    }

    /// What the thread does after one round of completion processing: it
    /// goes on in every case, and reports the round where it failed. A failed
    /// round only delays the delivery of completions.
    pub fn after_round(&self, round_failed: bool) -> (r: PumpStep)
        ensures
            r == if round_failed {
                PumpStep::ReportAndContinue
            } else {
                PumpStep::Continue
            },
    {
        if round_failed {
            PumpStep::ReportAndContinue
        } else {
            PumpStep::Continue
        }
    }
}

} // verus!
