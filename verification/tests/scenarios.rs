use std::sync::atomic::AtomicBool;
use std::sync::atomic::AtomicU64;
use std::sync::atomic::Ordering;
use std::sync::Arc;
use std::sync::Mutex;
use std::time::Duration;
use std::time::Instant;

use graceful_shutdown::coordinator::Phase;
use graceful_shutdown::coordinator::ShutdownCoordinator;
use graceful_shutdown::coordinator::ShutdownReport;
use graceful_shutdown::coordinator::TeardownOutcome;
use graceful_shutdown::job::BackgroundJob;
use graceful_shutdown::job::JobAction;
use graceful_shutdown::job::JobState;
use graceful_shutdown::scheduler::simulate_wait;
use graceful_shutdown::scheduler::WaitStrategy;
use graceful_shutdown::signal::StopSignal;
use tokio::runtime::Handle;
use tokio::runtime::Runtime;
use tokio::task::JoinHandle;

fn runtime_with_workers(n: usize) -> Runtime {
    tokio::runtime::Builder::new_multi_thread()
        .worker_threads(n)
        .enable_time()
        .build()
        .unwrap()
}

/// The background job's dedicated thread: drive the verified state
/// machine, sleeping one poll interval between polls. Resolves to the
/// acknowledgement's report of whether it was the one that fired the
/// notification.
fn spawn_job_thread(
    handle: Handle,
    signal: Arc<Mutex<StopSignal>>,
    job: Arc<Mutex<BackgroundJob>>,
    poll_interval: Duration,
) -> JoinHandle<bool> {
    let enter = handle.clone();
    handle.spawn_blocking(move || loop {
        let mut j = job.lock().unwrap();
        let decision = {
            let s = signal.lock().unwrap();
            j.poll(&s)
        };
        match decision {
            JobAction::AcknowledgeCompletion => {
                let mut s = signal.lock().unwrap();
                return j.acknowledge(&mut s);
            }
            JobAction::SleepThenPoll => {
                drop(j);
                enter.block_on(tokio::time::sleep(poll_interval));
            }
        }
    })
}

/// A stop trigger, wired as the corrected design runs it on the runtime:
/// the first trigger raises the flag and runs the sequence, with both
/// blocking waits offloaded to a dedicated thread that re-enters the
/// runtime from outside; a later trigger only re-raises the idempotent
/// flag and is otherwise coalesced.
async fn triggered_shutdown(
    handle: Handle,
    signal: Arc<Mutex<StopSignal>>,
    coordinator: Arc<Mutex<ShutdownCoordinator>>,
    teardown_latency: Duration,
    outcome: TeardownOutcome,
) -> Option<ShutdownReport> {
    let first_trigger = {
        let mut c = coordinator.lock().unwrap();
        if c.current_phase() == Phase::Idle {
            let mut s = signal.lock().unwrap();
            c.raise_signal(&mut s);
            true
        } else {
            signal.lock().unwrap().raise();
            false
        }
    };
    if !first_trigger {
        return None;
    }
    let enter = handle.clone();
    let c2 = coordinator.clone();
    let s2 = signal.clone();
    let offload = handle.spawn_blocking(move || {
        enter.block_on(tokio::time::sleep(teardown_latency));
        c2.lock().unwrap().record_teardown(outcome);
        loop {
            if s2.lock().unwrap().is_complete() {
                return;
            }
            enter.block_on(tokio::time::sleep(Duration::from_millis(5)));
        }
    });
    offload.await.unwrap();
    let mut c = coordinator.lock().unwrap();
    let s = signal.lock().unwrap();
    c.record_completion(&s);
    Some(c.finish())
}

#[test]
fn immediate_trigger_returns_promptly_with_job_stopped() {
    let rt = runtime_with_workers(2);
    let signal = Arc::new(Mutex::new(StopSignal::new()));
    let job = Arc::new(Mutex::new(BackgroundJob::new()));
    let coordinator = Arc::new(Mutex::new(ShutdownCoordinator::new()));
    let job_thread = spawn_job_thread(
        rt.handle().clone(),
        signal.clone(),
        job.clone(),
        Duration::from_millis(100),
    );
    let started = Instant::now();
    let report = rt
        .block_on(triggered_shutdown(
            rt.handle().clone(),
            signal.clone(),
            coordinator.clone(),
            Duration::from_millis(0),
            TeardownOutcome::Success,
        ))
        .expect("the first trigger runs the shutdown");
    let elapsed = started.elapsed();
    let fired_first = rt.block_on(job_thread).unwrap();
    assert!(fired_first);
    assert!(!report.teardown_failed);
    assert!(signal.lock().unwrap().observe());
    assert!(signal.lock().unwrap().is_complete());
    assert_eq!(job.lock().unwrap().current_state(), JobState::Stopped);
    assert!(
        elapsed < Duration::from_secs(2),
        "shutdown took {:?} against a 100ms poll interval",
        elapsed
    );
}

#[test]
fn concurrent_second_trigger_is_coalesced() {
    let rt = runtime_with_workers(2);
    let signal = Arc::new(Mutex::new(StopSignal::new()));
    let job = Arc::new(Mutex::new(BackgroundJob::new()));
    let coordinator = Arc::new(Mutex::new(ShutdownCoordinator::new()));
    let job_thread = spawn_job_thread(
        rt.handle().clone(),
        signal.clone(),
        job.clone(),
        Duration::from_millis(10),
    );
    let t1 = rt.spawn(triggered_shutdown(
        rt.handle().clone(),
        signal.clone(),
        coordinator.clone(),
        Duration::from_millis(200),
        TeardownOutcome::Success,
    ));
    let t2 = rt.spawn(triggered_shutdown(
        rt.handle().clone(),
        signal.clone(),
        coordinator.clone(),
        Duration::from_millis(200),
        TeardownOutcome::Success,
    ));
    let r1 = rt.block_on(t1).unwrap();
    let r2 = rt.block_on(t2).unwrap();
    let fired_first = rt.block_on(job_thread).unwrap();
    // Exactly one trigger completed the sequence; the notification fired
    // once; nothing panicked.
    assert!(r1.is_some() != r2.is_some());
    assert!(fired_first);
    assert!(signal.lock().unwrap().is_complete());
    assert_eq!(job.lock().unwrap().current_state(), JobState::Stopped);
    assert_eq!(coordinator.lock().unwrap().current_phase(), Phase::Complete);
}

#[test]
fn unrelated_tasks_progress_during_a_two_second_teardown() {
    // One worker, so any blocking wait smuggled onto the runtime would
    // starve the periodic task: its continued progress is the
    // no-worker-starvation invariant at work.
    let rt = runtime_with_workers(1);
    let signal = Arc::new(Mutex::new(StopSignal::new()));
    let job = Arc::new(Mutex::new(BackgroundJob::new()));
    let coordinator = Arc::new(Mutex::new(ShutdownCoordinator::new()));
    let job_thread = spawn_job_thread(
        rt.handle().clone(),
        signal.clone(),
        job.clone(),
        Duration::from_millis(50),
    );
    let counter = Arc::new(AtomicU64::new(0));
    let ticker = counter.clone();
    let periodic = rt.spawn(async move {
        loop {
            tokio::time::sleep(Duration::from_millis(20)).await;
            ticker.fetch_add(1, Ordering::SeqCst);
        }
    });
    let report = rt
        .block_on(triggered_shutdown(
            rt.handle().clone(),
            signal.clone(),
            coordinator.clone(),
            Duration::from_secs(2),
            TeardownOutcome::Success,
        ))
        .expect("the first trigger runs the shutdown");
    let ticks = counter.load(Ordering::SeqCst);
    periodic.abort();
    let fired_first = rt.block_on(job_thread).unwrap();
    assert!(fired_first);
    assert!(!report.teardown_failed);
    assert_eq!(job.lock().unwrap().current_state(), JobState::Stopped);
    assert!(
        ticks >= 10,
        "the periodic task made only {} ticks during the 2s teardown",
        ticks
    );
}

/// A completion wait on a one-worker runtime, where a second spawned task
/// must run before completion can fire. The naive strategy holds the
/// worker in a non-yielding wait; the corrected one suspends
/// cooperatively, as the task awaiting the offload thread does. Returns
/// whether completion was observed before a two-second deadline.
fn completion_wait_on_one_worker(strategy: WaitStrategy) -> bool {
    let rt = runtime_with_workers(1);
    let done = Arc::new(AtomicBool::new(false));
    let d_wait = done.clone();
    let d_set = done.clone();
    rt.block_on(async move {
        let waiter = tokio::spawn(async move {
            let deadline = Instant::now() + Duration::from_secs(2);
            while !d_wait.load(Ordering::SeqCst) {
                if Instant::now() >= deadline {
                    return false;
                }
                match strategy {
                    WaitStrategy::BlockRuntimeWorker => {}
                    WaitStrategy::OffloadThread => tokio::task::yield_now().await,
                }
            }
            true
        });
        let firer = tokio::spawn(async move {
            d_set.store(true, Ordering::SeqCst);
        });
        let completed = waiter.await.unwrap();
        firer.await.unwrap();
        completed
    })
}

#[test]
fn naive_wait_starves_a_one_worker_runtime() {
    // The regression for the hazard: the deliberately naive coordinator
    // never sees completion, exactly as the verified pool model predicts
    // for a fully blocked one-worker pool.
    assert!(!completion_wait_on_one_worker(WaitStrategy::BlockRuntimeWorker));
    assert!(!simulate_wait(WaitStrategy::BlockRuntimeWorker, 1, 1_000_000));
}

#[test]
fn offloaded_wait_returns_promptly_on_a_one_worker_runtime() {
    let started = Instant::now();
    assert!(completion_wait_on_one_worker(WaitStrategy::OffloadThread));
    assert!(started.elapsed() < Duration::from_secs(2));
    assert!(simulate_wait(WaitStrategy::OffloadThread, 1, 1));
}
