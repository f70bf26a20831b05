//! Per-task outcomes and the resolution of one task's timeout race.
//!
//! One task wraps one shell-executor invocation in a race against a deadline
//! timer: whichever side finishes first determines the task's outcome. The
//! race itself is run by an external scheduler; this module holds the verified
//! mapping from the event that won the race to the task's recorded outcome,
//! and a model of which side wins as a function of the observable durations.

use vstd::prelude::*;

verus! {

/// The result of one task: exactly one outcome is produced per task and it is
/// never mutated afterwards. A process exit code of zero or non-zero makes no
/// difference: whenever the shell could be launched and was not preempted by
/// the deadline, the captured output is a `Success`.
#[derive(Debug, PartialEq, Eq)]
pub enum Outcome {
    /// The executor finished before the deadline; captured output, whatever
    /// the process exit code was.
    Success { stdout: String, stderr: String },
    /// Launching the shell failed; the failure is confined to one task.
    LaunchFailure { cause: String },
    /// The deadline elapsed before the executor finished. The underlying
    /// process is abandoned, not killed; its eventual completion is discarded.
    TimedOut,
}

impl Clone for Outcome {
    fn clone(&self) -> (res: Self)
        ensures
            res == self,
    {
        match self {
            Outcome::Success { stdout, stderr } => Outcome::Success {
                stdout: stdout.clone(),
                stderr: stderr.clone(),
            },
            Outcome::LaunchFailure { cause } => Outcome::LaunchFailure { cause: cause.clone() },
            Outcome::TimedOut => Outcome::TimedOut,
        }
    }
}

/// How one executor invocation ended, when it did end: with captured output,
/// or with a failure to launch the shell at all.
#[derive(Debug, PartialEq, Eq)]
pub enum Completion {
    Finished { stdout: String, stderr: String },
    LaunchError { cause: String },
}

/// The event that decided one task's race: either the executor half ended
/// first (with its completion), or the deadline timer fired first.
pub enum RaceEvent {
    ExecutorDone(Completion),
    DeadlineElapsed,
}

/// The outcome a race event maps to.
pub open spec fn outcome_of_event(e: RaceEvent) -> Outcome {
    match e {
        RaceEvent::ExecutorDone(Completion::Finished { stdout, stderr }) => Outcome::Success {
            stdout,
            stderr,
        },
        RaceEvent::ExecutorDone(Completion::LaunchError { cause }) => Outcome::LaunchFailure {
            cause,
        },
        RaceEvent::DeadlineElapsed => Outcome::TimedOut,
    }
}

/// Turn the event that won one task's race into that task's outcome.
///
/// The external scheduler runs the executor and the deadline timer
/// concurrently and hands the winning side's event to this function; every
/// possible event yields an outcome, so no task is ever left without one.
pub fn resolve_race(event: RaceEvent) -> (o: Outcome)
    ensures
        o == outcome_of_event(event),
{
    match event {
        RaceEvent::ExecutorDone(Completion::Finished { stdout, stderr }) => Outcome::Success {
            stdout,
            stderr,
        },
        RaceEvent::ExecutorDone(Completion::LaunchError { cause }) => Outcome::LaunchFailure {
            cause,
        },
        RaceEvent::DeadlineElapsed => Outcome::TimedOut,
    }
}

/// Which side wins the race, as a function of the observable durations: the
/// executor needs `elapsed_ms` milliseconds, the deadline fires after
/// `timeout_ms` milliseconds. The deadline wins ties, so in particular a zero
/// timeout yields the deadline whenever the executor takes any nonzero time;
/// an executor that is complete in zero time at a zero timeout also resolves
/// to the deadline (the zero boundary is implementation-defined and this model
/// fixes it that way).
pub open spec fn race_winner(elapsed_ms: nat, timeout_ms: nat, c: Completion) -> RaceEvent {
    if elapsed_ms < timeout_ms {
        RaceEvent::ExecutorDone(c)
    } else {
        RaceEvent::DeadlineElapsed
    }
}

/// The race's outcome when both durations are known: the executable face of
/// `race_winner`. A harness that knows how long the executor needs can
/// predict a task's outcome with it.
pub fn race_by_durations(elapsed_ms: u64, timeout_ms: u64, completion: Completion) -> (o: Outcome)
    ensures
        o == outcome_of_event(race_winner(elapsed_ms as nat, timeout_ms as nat, completion)),
{
    if elapsed_ms < timeout_ms {
        resolve_race(RaceEvent::ExecutorDone(completion))
    } else {
        resolve_race(RaceEvent::DeadlineElapsed)
    }
}

/// A command that completes strictly within its deadline is never reported as
/// timed out: it yields its own completion's outcome.
pub proof fn lemma_prompt_completion_never_times_out(elapsed_ms: nat, timeout_ms: nat, c: Completion)
    requires
        elapsed_ms < timeout_ms,
    ensures
        outcome_of_event(race_winner(elapsed_ms, timeout_ms, c)) != Outcome::TimedOut,
        outcome_of_event(race_winner(elapsed_ms, timeout_ms, c)) == outcome_of_event(
            RaceEvent::ExecutorDone(c),
        ),
{
}

/// With a zero timeout, an executor that takes any nonzero observable time
/// always loses the race: the outcome is `TimedOut`.
pub proof fn lemma_zero_timeout_times_out(elapsed_ms: nat, c: Completion)
    requires
        elapsed_ms > 0,
    ensures
        outcome_of_event(race_winner(elapsed_ms, 0, c)) == Outcome::TimedOut,
{
}

} // verus!
