//! Fan a single shell command template out to a list of target hostnames.
//!
//! The verified core of the runner: rendering one command per hostname by
//! placeholder substitution, validating the configuration and planning the
//! tasks, resolving each task's race against its deadline, bounding how many
//! tasks run at once, and reassembling per-task outcomes into a run result
//! that keeps the original hostname order.
//!
//! Executing a rendered command in a platform shell, the timers, and the
//! thread pool that actually runs the tasks are external collaborators; they
//! drive this core from outside and are deliberately not part of it.

pub mod dispatch;
pub mod outcome;
pub mod pool;
pub mod render;

pub use outcome::Outcome;
