use vstd::prelude::*;

use crate::coordinator::Phase;
use crate::coordinator::ShutdownCoordinator;
use crate::coordinator::ShutdownReport;
use crate::coordinator::TeardownOutcome;
use crate::job::BackgroundJob;
use crate::job::JobState;
use crate::signal::StopSignal;

verus! {

/// The owner of one background job and its stop signal. It stands for
/// the process: the job runs on its dedicated thread, the runtime's entry
/// task waits for the external stop trigger, and when the trigger fires
/// the application routes it into the coordinator's shutdown sequence. A
/// trigger that fires again while a shutdown is already under way is
/// coalesced: it changes nothing.
pub struct Application {
    signal: StopSignal,
    job: BackgroundJob,
    coordinator: ShutdownCoordinator,
}

impl Application {
    /// The stop signal the job and coordinator share.
    pub closed spec fn signal(&self) -> StopSignal {
        self.signal
    }

    /// The background job.
    pub closed spec fn job(&self) -> BackgroundJob {
        self.job
    }

    /// The shutdown coordinator.
    pub closed spec fn coordinator(&self) -> ShutdownCoordinator {
        self.coordinator
    }

    /// The application's lifecycle invariant: while no shutdown has been
    /// acted on, the job is still in its poll loop; and the completion
    /// notification fires only after the flag is up and the job has left
    /// its loop — never the other way around.
    pub open spec fn wf(&self) -> bool {
        &&& (self.coordinator().phase() == Phase::Idle ==> self.job().state()
            == JobState::Running)
        &&& (self.signal().completed() ==> self.signal().raised() && self.job().state()
            == JobState::Stopped)
    }

    /// A fresh application: flag down, notification unfired, job
    /// running, coordinator idle.
    pub fn new() -> (app: Application)
        ensures
            app.wf(),
            !app.signal().raised(),
            !app.signal().completed(),
            app.job().state() == JobState::Running,
            app.coordinator().phase() == Phase::Idle,
            !app.coordinator().teardown_failed(),
    {
        Application {
            signal: StopSignal::new(),
            job: BackgroundJob::new(),
            coordinator: ShutdownCoordinator::new(),
        }
    }

    /// The stop flag, as any thread would observe it.
    pub fn signal_raised(&self) -> (b: bool)
        ensures
            b == self.signal().raised(),
    {
        self.signal.observe()
    }

    /// Whether the completion notification has fired.
    pub fn signal_completed(&self) -> (b: bool)
        ensures
            b == self.signal().completed(),
    {
        self.signal.is_complete()
    }

    /// The job's lifecycle state.
    pub fn job_state(&self) -> (s: JobState)
        ensures
            s == self.job().state(),
    {
        self.job.current_state()
    }

    /// Where the shutdown sequence stands.
    pub fn shutdown_phase(&self) -> (p: Phase)
        ensures
            p == self.coordinator().phase(),
    {
        self.coordinator.current_phase()
    }

    /// The external stop trigger fired: run the shutdown sequence in the
    /// sequential model, or coalesce the trigger if a shutdown is already
    /// under way. Exactly the first trigger gets a report; after it, the
    /// flag is up, the notification has fired and the job has stopped,
    /// and a later trigger leaves the application untouched.
    pub fn on_stop_trigger(&mut self, outcome: TeardownOutcome) -> (r: Option<ShutdownReport>)
        requires
            old(self).wf(),
        ensures
            final(self).wf(),
            r is Some <==> old(self).coordinator().phase() == Phase::Idle,
            old(self).coordinator().phase() == Phase::Idle ==> {
                &&& final(self).signal().raised()
                &&& final(self).signal().completed()
                &&& final(self).job().state() == JobState::Stopped
                &&& final(self).coordinator().phase() == Phase::Complete
                &&& r == Some(
                    ShutdownReport {
                        teardown_failed: old(self).coordinator().teardown_failed() || outcome
                            == TeardownOutcome::Failure,
                    },
                )
            },
            old(self).coordinator().phase() != Phase::Idle ==> *final(self) == *old(self),
    {
        let phase = self.coordinator.current_phase();
        match phase {
            Phase::Idle => {
                let report = self.coordinator.shutdown(&mut self.signal, &mut self.job, outcome);
                Some(report)
            },
            _ => None,
        }
    }
}

} // verus!
