use vstd::prelude::*;

use crate::job::BackgroundJob;
use crate::job::JobState;
use crate::signal::StopSignal;

verus! {

/// How far the shutdown sequence has advanced.
#[derive(Clone, Copy, PartialEq, Eq, Structural, Debug)]
pub enum Phase {
    /// No stop trigger has been acted on yet.
    Idle,
    /// The stop flag is up; the dependent subsystem's teardown is being
    /// driven on the offload thread.
    SignalRaised,
    /// Teardown has finished (well or badly); waiting for the job's
    /// completion notification.
    TeardownDone,
    /// The completion notification arrived: `shutdown()` may return.
    Complete,
}

/// What the dependent subsystem's asynchronous teardown came back with.
/// A failure is surfaced, not fatal: the coordinator still asks the job
/// to stop and still waits for its acknowledgement.
#[derive(Clone, Copy, PartialEq, Eq, Structural, Debug)]
pub enum TeardownOutcome {
    Success,
    Failure,
}

/// What `shutdown()` hands back to the process exit path.
#[derive(Clone, Copy, PartialEq, Eq, Structural, Debug)]
pub struct ShutdownReport {
    /// True when the dependent subsystem's teardown failed; the job was
    /// still stopped and its acknowledgement still awaited.
    pub teardown_failed: bool,
}

/// The orchestrator of "raise stop flag, await dependent teardown, await
/// job completion". It runs on the asynchronous runtime but performs no
/// blocking wait there: the blocking part is offloaded to a dedicated
/// thread (see `scheduler` for why), and these transitions record what
/// that thread reports back. Intended to be driven through a whole
/// sequence exactly once.
pub struct ShutdownCoordinator {
    phase: Phase,
    teardown_failed: bool,
}

impl ShutdownCoordinator {
    /// Where the sequence stands.
    pub closed spec fn phase(&self) -> Phase {
        self.phase
    }

    /// Whether a teardown failure has been recorded.
    pub closed spec fn teardown_failed(&self) -> bool {
        self.teardown_failed
    }

    /// Where the sequence stands, readable at run time.
    pub fn current_phase(&self) -> (p: Phase)
        ensures
            p == self.phase(),
    {
        self.phase
    }

    /// A coordinator that has not yet acted on a stop trigger.
    pub fn new() -> (c: ShutdownCoordinator)
        ensures
            c.phase() == Phase::Idle,
            !c.teardown_failed(),
    {
        ShutdownCoordinator { phase: Phase::Idle, teardown_failed: false }
    }

    /// Step 1 of the sequence: raise the stop flag. Synchronous and
    /// infallible; from here on the job's next poll sees the flag up.
    pub fn raise_signal(&mut self, signal: &mut StopSignal)
        requires
            old(self).phase() == Phase::Idle,
        ensures
            final(self).phase() == Phase::SignalRaised,
            final(self).teardown_failed() == old(self).teardown_failed(),
            *final(signal) == StopSignal::raise_spec(*old(signal)),
            final(signal).raised(),
            final(signal).completed() == old(signal).completed(),
    {
        signal.raise();
        self.phase = Phase::SignalRaised;
    }

    /// Step 2 finished: the offload thread drove the dependent
    /// subsystem's teardown to its end and reports how it went. A failed
    /// teardown is recorded for the final report and does not stop the
    /// sequence.
    pub fn record_teardown(&mut self, outcome: TeardownOutcome)
        requires
            old(self).phase() == Phase::SignalRaised,
        ensures
            final(self).phase() == Phase::TeardownDone,
            final(self).teardown_failed() == (old(self).teardown_failed() || outcome
                == TeardownOutcome::Failure),
    {
        match outcome {
            TeardownOutcome::Failure => {
                self.teardown_failed = true;
            },
            TeardownOutcome::Success => {},
        }
        self.phase = Phase::TeardownDone;
    }

    /// Step 3 finished: the completion notification fired, so the job has
    /// passed the point of firing it. Only a completed signal lets the
    /// sequence advance — an `await_complete` with nobody positioned to
    /// ever fire the notification would simply never resolve.
    pub fn record_completion(&mut self, signal: &StopSignal)
        requires
            old(self).phase() == Phase::TeardownDone,
            signal.completed(),
        ensures
            final(self).phase() == Phase::Complete,
            final(self).teardown_failed() == old(self).teardown_failed(),
    {
        self.phase = Phase::Complete;
    }

    /// Step 4: return from `shutdown()`, handing the recorded outcome to
    /// the process exit path.
    pub fn finish(&self) -> (r: ShutdownReport)
        requires
            self.phase() == Phase::Complete,
        ensures
            r.teardown_failed == self.teardown_failed(),
    {
        ShutdownReport { teardown_failed: self.teardown_failed }
    }

    /// The whole `shutdown()` sequence, in the sequential model where the
    /// caller stands for all three threads at once: the runtime task that
    /// triggered shutdown, the offload thread that drove the teardown to
    /// the given outcome, and the job's own thread, which polls once,
    /// sees the flag, and acknowledges. After it returns, the flag is up,
    /// the notification has fired, and the job has left its loop: exactly
    /// the state in which the process may exit cleanly.
    pub fn shutdown(
        &mut self,
        signal: &mut StopSignal,
        job: &mut BackgroundJob,
        outcome: TeardownOutcome,
    ) -> (r: ShutdownReport)
        requires
            old(self).phase() == Phase::Idle,
            old(job).state() == JobState::Running,
        ensures
            final(self).phase() == Phase::Complete,
            final(self).teardown_failed() == (old(self).teardown_failed() || outcome
                == TeardownOutcome::Failure),
            final(signal).raised(),
            final(signal).completed(),
            final(job).state() == JobState::Stopped,
            r.teardown_failed == (old(self).teardown_failed() || outcome
                == TeardownOutcome::Failure),
    {
        self.raise_signal(signal);
        self.record_teardown(outcome);
        let _polls = job.run_until_stopped(signal, 1);
        self.record_completion(signal);
        self.finish()
    }

    /// The shutdown sequence against a discrete clock, stating the
    /// liveness bound that the offload design buys. The trigger fires at
    /// tick 0; the job's next poll falls `next_poll` ticks later (never
    /// more than one poll interval away); the teardown takes
    /// `teardown_latency` ticks, driven concurrently on the offload
    /// thread while the job keeps polling on its own thread. The result
    /// is the tick at which `shutdown()` returns: the later of the two
    /// concurrent waits, and never past one poll interval plus the
    /// teardown latency.
    pub fn timed_shutdown(
        &mut self,
        signal: &mut StopSignal,
        job: &mut BackgroundJob,
        outcome: TeardownOutcome,
        next_poll: u64,
        poll_interval: u64,
        teardown_latency: u64,
    ) -> (return_tick: u64)
        requires
            old(self).phase() == Phase::Idle,
            old(job).state() == JobState::Running,
            next_poll <= poll_interval,
            poll_interval + teardown_latency <= u64::MAX,
        ensures
            return_tick == if next_poll >= teardown_latency {
                next_poll
            } else {
                teardown_latency
            },
            return_tick <= poll_interval + teardown_latency,
            final(self).phase() == Phase::Complete,
            final(self).teardown_failed() == (old(self).teardown_failed() || outcome
                == TeardownOutcome::Failure),
            final(signal).raised(),
            final(signal).completed(),
            final(job).state() == JobState::Stopped,
    {
        // Tick 0, on the runtime: raise the flag and hand the blocking
        // work to the offload thread.
        self.raise_signal(signal);
        // Tick `next_poll`, on the job's thread: the poll sees the flag
        // up and the job acknowledges.
        let _action = job.poll(signal);
        let _was_first = job.acknowledge(signal);
        // Tick `teardown_latency`, on the offload thread: teardown ends.
        self.record_teardown(outcome);
        // The completion wait resolves once both have happened.
        self.record_completion(signal);
        if next_poll >= teardown_latency {
            next_poll
        } else {
            teardown_latency
        }
    }
}

} // verus!
