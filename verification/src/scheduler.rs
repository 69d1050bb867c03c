use vstd::prelude::*;

verus! {

/// Where the coordinator performs the OS-level blocking waits of its
/// shutdown sequence (driving the teardown, waiting for the completion
/// notification).
#[derive(Clone, Copy, PartialEq, Eq, Structural, Debug)]
pub enum WaitStrategy {
    /// Block one of the cooperative runtime's own worker threads. This is
    /// the naive design the protocol exists to rule out.
    BlockRuntimeWorker,
    /// Block a dedicated thread outside the runtime's pool, which
    /// re-enters the runtime from outside to drive the teardown; the
    /// runtime task that asked for shutdown only suspends cooperatively.
    OffloadThread,
}

/// The cooperative runtime's worker pool during shutdown, reduced to what
/// the hazard turns on: how many workers the pool has, how many of them
/// are held in OS-level blocking waits, and whether the one queued task
/// that all further progress depends on (the teardown step, and with it
/// everything the completion wait needs) has run yet.
pub struct RuntimeModel {
    /// Worker threads in the runtime's pool (at least one).
    pub workers: u64,
    /// Workers held in OS-level blocking waits, so unavailable to the
    /// scheduler.
    pub blocked: u64,
    /// Whether the queued task that shutdown's progress depends on has
    /// run.
    pub task_ran: bool,
}

/// A runtime can schedule queued work exactly when some worker is free.
pub open spec fn can_schedule(m: RuntimeModel) -> bool {
    m.blocked < m.workers
}

/// One step of the scheduler: if a worker is free, the queued task runs;
/// a fully blocked pool changes nothing — no task, however ready, is ever
/// picked up.
pub open spec fn scheduler_step(m: RuntimeModel) -> RuntimeModel {
    if can_schedule(m) {
        RuntimeModel { task_ran: true, ..m }
    } else {
        m
    }
}

/// The scheduler left to take `n` steps.
pub open spec fn run_steps(m: RuntimeModel, n: nat) -> RuntimeModel
    decreases n,
{
    if n == 0 {
        m
    } else {
        scheduler_step(run_steps(m, (n - 1) as nat))
    }
}

/// The critical design rule of the shutdown sequence: the blocking waits
/// are performed off the runtime's own pool.
pub open spec fn obeys_offload_rule(strategy: WaitStrategy) -> bool {
    strategy == WaitStrategy::OffloadThread
}

/// How many runtime workers each strategy leaves blocked during the wait.
pub open spec fn workers_blocked_by(strategy: WaitStrategy) -> u64 {
    match strategy {
        WaitStrategy::BlockRuntimeWorker => 1u64,
        WaitStrategy::OffloadThread => 0u64,
    }
}

/// Worker-thread starvation is forever: a pool whose every worker is
/// blocked never runs the queued task, no matter how many steps the
/// scheduler is given. This is the deadlock the naive design runs into on
/// a one-worker runtime: the blocked worker waits on the very task it is
/// starving.
pub proof fn lemma_starved_pool_never_progresses(m: RuntimeModel, n: nat)
    requires
        m.blocked >= m.workers,
        !m.task_ran,
    ensures
        run_steps(m, n) == m,
        !run_steps(m, n).task_ran,
    decreases n,
{
    if n > 0 {
        lemma_starved_pool_never_progresses(m, (n - 1) as nat);
    }
}

/// A pool with a free worker runs the queued task within one step, and
/// the task stays run from then on.
pub proof fn lemma_free_worker_progresses(m: RuntimeModel, n: nat)
    requires
        can_schedule(m),
        n >= 1,
    ensures
        run_steps(m, n).task_ran,
    decreases n,
{
    if n == 1 {
        assert(run_steps(m, 0) == m);
        assert(run_steps(m, 1) == scheduler_step(run_steps(m, 0)));
    } else {
        lemma_free_worker_progresses(m, (n - 1) as nat);
        assert(run_steps(m, n) == scheduler_step(run_steps(m, (n - 1) as nat)));
    }
}

/// The offload rule is exactly what makes the wait safe on every pool: a
/// coordinator that obeys it leaves all workers free, so the runtime
/// makes progress however small its pool; the naive strategy starves a
/// one-worker pool forever.
pub proof fn lemma_offload_rule_is_deadlock_free(strategy: WaitStrategy, workers: u64, n: nat)
    requires
        workers >= 1,
        n >= 1,
    ensures
        obeys_offload_rule(strategy) ==> run_steps(
            RuntimeModel { workers, blocked: workers_blocked_by(strategy), task_ran: false },
            n,
        ).task_ran,
        !obeys_offload_rule(strategy) && workers == 1 ==> !run_steps(
            RuntimeModel { workers, blocked: workers_blocked_by(strategy), task_ran: false },
            n,
        ).task_ran,
{
    let m = RuntimeModel { workers, blocked: workers_blocked_by(strategy), task_ran: false };
    if obeys_offload_rule(strategy) {
        lemma_free_worker_progresses(m, n);
    } else if workers == 1 {
        lemma_starved_pool_never_progresses(m, n);
    }
}

/// Run the wait under the given strategy on a pool of `workers` threads,
/// giving the scheduler at most `budget` steps: returns whether the
/// queued task that shutdown depends on got to run. The result is pinned
/// exactly — the naive strategy succeeds only by luck of a second worker,
/// the offload strategy always.
#[verifier::loop_isolation(false)]
pub fn simulate_wait(strategy: WaitStrategy, workers: u64, budget: u64) -> (task_ran: bool)
    requires
        workers >= 1,
    ensures
        task_ran <==> (budget >= 1 && (obeys_offload_rule(strategy) || workers >= 2)),
        task_ran == run_steps(
            RuntimeModel { workers, blocked: workers_blocked_by(strategy), task_ran: false },
            budget as nat,
        ).task_ran,
{
    let blocked: u64 = match strategy {
        WaitStrategy::BlockRuntimeWorker => 1,
        WaitStrategy::OffloadThread => 0,
    };
    let m = RuntimeModel { workers, blocked, task_ran: false };
    proof {
        assert(run_steps(m, 0) == m);
        if budget >= 1 {
            if can_schedule(m) {
                lemma_free_worker_progresses(m, budget as nat);
            } else {
                lemma_starved_pool_never_progresses(m, budget as nat);
            }
        }
    }
    let mut steps: u64 = 0;
    while steps < budget
        invariant
            steps <= budget,
            steps > 0 ==> blocked >= workers,
        decreases budget - steps,
    {
        if blocked < workers {
            return true;
        }
        steps = steps + 1;
    }
    false
}

} // verus!
