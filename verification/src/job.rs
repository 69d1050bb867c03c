use vstd::prelude::*;

use crate::signal::StopSignal;

verus! {

/// Where the background job stands in its lifecycle.
#[derive(Clone, Copy, PartialEq, Eq, Structural, Debug)]
pub enum JobState {
    /// Polling the stop signal on a fixed cadence and doing its work.
    Running,
    /// Has observed the raised flag; performs no further work-loop
    /// iterations, still owes the completion acknowledgement.
    ShuttingDown,
    /// Terminal: the completion notification has been fired and the
    /// job's thread is free to exit.
    Stopped,
}

/// What the job's thread must do after a poll step.
#[derive(Clone, Copy, PartialEq, Eq, Structural, Debug)]
pub enum JobAction {
    /// Flag still down: sleep one poll interval, then poll again.
    SleepThenPoll,
    /// Flag observed up: fire the completion acknowledgement next.
    AcknowledgeCompletion,
}

/// The background job's state machine. It runs on its own dedicated
/// thread, never on a runtime worker; the only external influence on it is
/// the stop signal, which it follows and never raises itself. The thread
/// calls `poll` once per cadence tick and `acknowledge` once `poll` asks
/// for it; the sleeps in between belong to the thread, not to the machine.
pub struct BackgroundJob {
    state: JobState,
}

impl BackgroundJob {
    /// The job's current lifecycle state.
    pub closed spec fn state(&self) -> JobState {
        self.state
    }

    /// The job's current lifecycle state, readable at run time.
    pub fn current_state(&self) -> (s: JobState)
        ensures
            s == self.state(),
    {
        self.state
    }

    /// A fresh job, ready to run its poll loop.
    pub fn new() -> (j: BackgroundJob)
        ensures
            j.state() == JobState::Running,
    {
        BackgroundJob { state: JobState::Running }
    }

    /// One iteration of the poll loop: observe the signal and decide. The
    /// job leaves `Running` exactly when it sees the flag up, and then
    /// stops touching shared work before anything else happens — the
    /// acquire/release pairing on the real flag makes every write that
    /// preceded the raise visible here.
    pub fn poll(&mut self, signal: &StopSignal) -> (a: JobAction)
        requires
            old(self).state() == JobState::Running,
        ensures
            signal.raised() ==> {
                &&& final(self).state() == JobState::ShuttingDown
                &&& a == JobAction::AcknowledgeCompletion
            },
            !signal.raised() ==> {
                &&& final(self).state() == JobState::Running
                &&& a == JobAction::SleepThenPoll
            },
    {
        if signal.observe() {
            self.state = JobState::ShuttingDown;
            JobAction::AcknowledgeCompletion
        } else {
            JobAction::SleepThenPoll
        }
    }

    /// The terminal step: fire the completion notification and stop. The
    /// result reports whether this acknowledgement was the one that fired
    /// the notification (in a valid execution it always is).
    pub fn acknowledge(&mut self, signal: &mut StopSignal) -> (was_first: bool)
        requires
            old(self).state() == JobState::ShuttingDown,
        ensures
            final(self).state() == JobState::Stopped,
            *final(signal) == StopSignal::mark_complete_spec(*old(signal)),
            final(signal).completed(),
            final(signal).raised() == old(signal).raised(),
            was_first == !old(signal).completed(),
    {
        let was_first = signal.mark_complete();
        self.state = JobState::Stopped;
        was_first
    }

    /// The poll loop as the dedicated thread runs it, against a signal
    /// that does not change during the run: poll, and either keep going
    /// (at most `max_polls` times, standing for the thread sleeping
    /// between polls) or acknowledge and stop. Returns how many polls were
    /// taken when the job stopped, `None` if the budget ran out first.
    ///
    /// Once the flag is up, a single poll suffices: the job exits on the
    /// very next iteration of its loop.
    pub fn run_until_stopped(&mut self, signal: &mut StopSignal, max_polls: u64) -> (polls: Option<
        u64,
    >)
        requires
            old(self).state() == JobState::Running,
        ensures
            old(signal).raised() && max_polls >= 1 ==> {
                &&& polls == Some(1u64)
                &&& final(self).state() == JobState::Stopped
                &&& *final(signal) == StopSignal::mark_complete_spec(*old(signal))
                &&& final(signal).completed()
            },
            !old(signal).raised() ==> {
                &&& polls is None
                &&& final(self).state() == JobState::Running
                &&& *final(signal) == *old(signal)
            },
            max_polls == 0 ==> polls is None,
            final(signal).raised() == old(signal).raised(),
    {
        let mut taken: u64 = 0;
        while taken < max_polls
            invariant
                self.state() == JobState::Running,
                *signal == *old(signal),
                taken <= max_polls,
                !signal.raised() || taken == 0,
            decreases max_polls - taken,
        {
            taken = taken + 1;
            let action = self.poll(signal);
            match action {
                JobAction::AcknowledgeCompletion => {
                    self.acknowledge(signal);
                    return Some(taken);
                },
                JobAction::SleepThenPoll => {},
            }
        }
        None
    }
}

} // verus!
