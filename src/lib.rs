//! A minimal cooperative task scheduler, as verified state machines.
//!
//! Tasks interleave on one thread and suspend until a notifier queues their
//! identity as ready. This library holds the decisions: which identity a new
//! task gets, where a suspended task is parked, what a readiness event yields
//! (stale events are absorbed), when the run loop is done, and how a timer's
//! shared state moves from pending to ready and which notifier it invokes.
//! Polling futures, waiting on the ready queue and sleeping happen around it.

pub mod scheduler;
pub mod task;
pub mod timer;
pub mod waker;

pub use scheduler::{Scheduler, SchedulerError};
pub use task::{PollOutcome, TaskId};
pub use timer::TimerState;
pub use waker::MpscWaker;
