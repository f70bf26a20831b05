//! The dispatcher: from a configuration to a run result.
//!
//! The dispatcher validates the configuration, renders one command per
//! hostname and packages it as a task carrying its position, and, once the
//! external scheduler has produced each task's outcome, reassembles the
//! outcomes into a run result in the original hostname order. Tasks complete
//! independently and out of order; consumers only ever see submission order.
//! No outcome is ever dropped: the run result always has exactly one outcome
//! per hostname. Failure is per outcome, never a whole-run failure; the only
//! whole-run failure is an invalid configuration, rejected before any task
//! exists.

use vstd::prelude::*;
use vstd::string::StringExecFns;
use crate::outcome::Outcome;
use crate::render::render;
use crate::render::replace_all;

verus! {

/// One run's configuration: immutable once loaded and owned by the dispatcher
/// for the duration of the run. The hostname list may be empty (a legal
/// configuration whose run result is empty); a zero `thread_count` is the one
/// invalid configuration and is rejected before any task is created.
pub struct Config {
    /// Targets, in the order outcomes will be reported; duplicates allowed.
    pub hostnames: Vec<String>,
    /// The command template, holding zero or more occurrences of the tag.
    pub cmd_to_run: String,
    /// The placeholder substring replaced by each hostname.
    pub hostname_tag: String,
    /// How many tasks may run their executor half concurrently; must be > 0.
    pub thread_count: usize,
    /// Per-task deadline in milliseconds; zero is valid.
    pub timeout_ms: u64,
}

/// A whole-run failure: the configuration itself is unusable. Per-task
/// failures are never reported this way.
#[derive(Debug, PartialEq, Eq, Structural)]
pub enum ConfigError {
    /// `thread_count` was zero: no task could ever be admitted.
    ZeroWorkerCount,
}

impl ConfigError {
    /// A human-readable description of the configuration error.
    pub fn message(&self) -> (m: String)
        ensures
            m@ == "thread count must be positive"@,
    {
        String::from_str("thread count must be positive")
    }
}

/// A valid configuration: the worker count is positive. The hostname list is
/// unconstrained; empty is legal.
pub open spec fn valid_config(c: Config) -> bool {
    c.thread_count > 0
}

/// The command a given hostname position renders to.
pub open spec fn command_for(c: Config, i: int) -> Seq<char> {
    replace_all(c.cmd_to_run@, c.hostname_tag@, c.hostnames@[i]@)
}

/// One hostname's unit of work: its position in the original hostname
/// sequence and the command rendered for it. Consumed by exactly one worker
/// slot; it has no identity after its outcome is produced.
#[derive(Debug, PartialEq, Eq)]
pub struct Task {
    /// Position in the original hostname sequence; outcomes are correlated by
    /// this index.
    pub index: usize,
    /// The template with every tag occurrence replaced by this hostname.
    pub rendered_command: String,
}

/// Validate the configuration and create one task per hostname, in hostname
/// order: task `i` carries index `i` and the command rendered for
/// `hostnames[i]`. Rejected if and only if the worker count is zero, before
/// any task is created; an empty hostname list yields an empty task list.
pub fn plan_tasks(config: &Config) -> (r: Result<Vec<Task>, ConfigError>)
    ensures
        r is Ok <==> valid_config(*config),
        r matches Ok(tasks) ==> {
            &&& tasks@.len() == config.hostnames@.len()
            &&& forall|i: int|
                0 <= i < tasks@.len() ==> {
                    &&& (#[trigger] tasks@[i]).index == i
                    &&& tasks@[i].rendered_command@ == command_for(*config, i)
                }
        },
        r matches Err(e) ==> e == ConfigError::ZeroWorkerCount,
{
    if config.thread_count == 0 {
        return Err(ConfigError::ZeroWorkerCount);
    }
    let mut tasks: Vec<Task> = Vec::new();
    let mut i: usize = 0;
    while i < config.hostnames.len()
        invariant
            i <= config.hostnames@.len(),
            tasks@.len() == i,
            forall|j: int|
                0 <= j < i ==> {
                    &&& (#[trigger] tasks@[j]).index == j
                    &&& tasks@[j].rendered_command@ == command_for(*config, j)
                },
        decreases config.hostnames@.len() - i,
    {
        let cmd = render(
            config.cmd_to_run.as_str(),
            config.hostname_tag.as_str(),
            config.hostnames[i].as_str(),
        );
        tasks.push(Task { index: i, rendered_command: cmd });
        i += 1;
    }
    Ok(tasks)
}

/// Collects per-task outcomes as they arrive, in any order, and hands the run
/// result back in task-index order. One slot per task; each outcome is
/// written exactly once, so one task's failure can never touch another
/// task's slot.
pub struct RunCollector {
    slots: Vec<Option<Outcome>>,
}

impl View for RunCollector {
    type V = Seq<Option<Outcome>>;

    closed spec fn view(&self) -> Seq<Option<Outcome>> {
        self.slots@
    }
}

impl RunCollector {
    /// One empty slot per task.
    pub fn new(task_count: usize) -> (c: Self)
        ensures
            c@.len() == task_count,
            forall|i: int| 0 <= i < task_count ==> (#[trigger] c@[i]) is None,
    {
        let mut slots: Vec<Option<Outcome>> = Vec::new();
        let mut i: usize = 0;
        while i < task_count
            invariant
                slots@.len() == i <= task_count,
                forall|j: int| 0 <= j < i ==> (#[trigger] slots@[j]) is None,
            decreases task_count - i,
        {
            slots.push(None);
            i += 1;
        }
        RunCollector { slots }
    }

    /// Record the outcome of the task with the given index. Exactly one
    /// outcome per task: the slot must still be empty. Only that slot
    /// changes.
    pub fn record(&mut self, index: usize, outcome: Outcome)
        requires
            index < old(self)@.len(),
            old(self)@[index as int] is None,
        ensures
            final(self)@ == old(self)@.update(index as int, Some(outcome)),
    {
        self.slots[index] = Some(outcome);
    }

    /// The run result, in task-index order, once every slot is filled: `Some`
    /// if and only if every task's outcome has been recorded, and then the
    /// outcome at position `i` is exactly the one recorded for index `i`.
    pub fn finish(&self) -> (r: Option<Vec<Outcome>>)
        ensures
            r is Some <==> (forall|i: int| 0 <= i < self@.len() ==> (#[trigger] self@[i]) is Some),
            r matches Some(v) ==> {
                &&& v@.len() == self@.len()
                &&& forall|i: int| 0 <= i < v@.len() ==> Some(#[trigger] v@[i]) == self@[i]
            },
    {
        let mut out: Vec<Outcome> = Vec::new();
        let mut i: usize = 0;
        while i < self.slots.len()
            invariant
                out@.len() == i <= self@.len(),
                self@ == self.slots@,
                forall|k: int| 0 <= k < i ==> Some(#[trigger] out@[k]) == self@[k],
            decreases self.slots@.len() - i,
        {
            match &self.slots[i] {
                Some(o) => {
                    out.push(o.clone());
                },
                None => {
                    return None;
                },
            }
            i += 1;
        }
        proof {
            assert forall|k: int| 0 <= k < self@.len() implies (#[trigger] self@[k]) is Some by {
                assert(Some(out@[k]) == self@[k]);
            }
        }
        Some(out)
    }
}

/// The sequence of recording events a run produces: for each completed task,
/// its index and its outcome, in the order the completions were observed.
pub type RecordEvent = (int, Outcome);

/// Apply recording events to the slots, first event first.
pub open spec fn apply_records(slots: Seq<Option<Outcome>>, recs: Seq<RecordEvent>) -> Seq<
    Option<Outcome>,
>
    decreases recs.len(),
{
    if recs.len() == 0 {
        slots
    } else {
        apply_records(slots.update(recs[0].0, Some(recs[0].1)), recs.skip(1))
    }
}

/// The outcome the events record for task index `i`, if any.
pub open spec fn recorded_outcome(recs: Seq<RecordEvent>, i: int) -> Option<Outcome>
    decreases recs.len(),
{
    if recs.len() == 0 {
        None
    } else if recs[0].0 == i {
        Some(recs[0].1)
    } else {
        recorded_outcome(recs.skip(1), i)
    }
}

proof fn lemma_recorded_none_when_absent(recs: Seq<RecordEvent>, i: int)
    requires
        forall|j: int| 0 <= j < recs.len() ==> (#[trigger] recs[j]).0 != i,
    ensures
        recorded_outcome(recs, i) is None,
    decreases recs.len(),
{
    if recs.len() > 0 {
        assert forall|j: int| 0 <= j < recs.skip(1).len() implies (#[trigger] recs.skip(1)[j]).0
            != i by {
            assert(recs.skip(1)[j] == recs[j + 1]);
        }
        lemma_recorded_none_when_absent(recs.skip(1), i);
    }
}

/// Law: reassembly is by task index and independent of completion order.
/// Whatever order the tasks complete in, once their outcomes are recorded —
/// each task index at most once — slot `i` holds exactly the outcome recorded
/// for task `i`, a slot whose task never completed is untouched, and no slot
/// is ever added or dropped.
pub proof fn lemma_reassembly_is_order_independent(
    slots: Seq<Option<Outcome>>,
    recs: Seq<RecordEvent>,
    i: int,
)
    requires
        forall|j: int| 0 <= j < recs.len() ==> 0 <= (#[trigger] recs[j]).0 < slots.len(),
        forall|j: int, k: int|
            0 <= j < k < recs.len() ==> (#[trigger] recs[j]).0 != (#[trigger] recs[k]).0,
        0 <= i < slots.len(),
    ensures
        apply_records(slots, recs).len() == slots.len(),
        recorded_outcome(recs, i) matches Some(o) ==> apply_records(slots, recs)[i] == Some(o),
        recorded_outcome(recs, i) is None ==> apply_records(slots, recs)[i] == slots[i],
    decreases recs.len(),
{
    if recs.len() > 0 {
        let slots1 = slots.update(recs[0].0, Some(recs[0].1));
        let rest = recs.skip(1);
        assert forall|j: int| 0 <= j < rest.len() implies 0 <= (#[trigger] rest[j]).0
            < slots1.len() by {
            assert(rest[j] == recs[j + 1]);
        }
        assert forall|j: int, k: int| 0 <= j < k < rest.len() implies (#[trigger] rest[j]).0 != (
        #[trigger] rest[k]).0 by {
            assert(rest[j] == recs[j + 1]);
            assert(rest[k] == recs[k + 1]);
        }
        lemma_reassembly_is_order_independent(slots1, rest, i);
        if recs[0].0 == i {
            assert forall|j: int| 0 <= j < rest.len() implies (#[trigger] rest[j]).0 != i by {
                assert(rest[j] == recs[j + 1]);
                assert(recs[0].0 != recs[j + 1].0);
            }
            lemma_recorded_none_when_absent(rest, i);
        }
    }
}

/// Law: outcomes are isolated per task. Recording one task's outcome — a
/// success, a launch failure, or a timeout — changes that task's slot only;
/// every other task's slot is exactly what it was.
pub proof fn lemma_record_isolates(slots: Seq<Option<Outcome>>, i: int, o: Outcome, j: int)
    requires
        0 <= i < slots.len(),
        0 <= j < slots.len(),
        j != i,
    ensures
        slots.update(i, Some(o))[j] == slots[j],
        slots.update(i, Some(o))[i] == Some(o),
        slots.update(i, Some(o)).len() == slots.len(),
{
}

} // verus!
