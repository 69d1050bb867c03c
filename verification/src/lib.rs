//! Coordination of graceful termination between a long-running background
//! job on a dedicated blocking thread and a cooperative asynchronous
//! runtime.
//!
//! The protocol: an external stop trigger fires once; the coordinator
//! raises a shared stop flag, drives the dependent subsystem's teardown to
//! completion on a dedicated offload thread (never on one of the runtime's
//! own workers), and waits for the background job to acknowledge that it
//! has exited its poll loop. The modules here hold the verified state
//! machines and timing model of that protocol; the threads, sleeps and
//! notification primitives that carry it at run time live outside the
//! library and drive these machines step by step.

pub mod application;
pub mod coordinator;
pub mod job;
pub mod scheduler;
pub mod signal;
