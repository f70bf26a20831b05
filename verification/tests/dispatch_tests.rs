use each_cmd::dispatch::{plan_tasks, Config, ConfigError, RunCollector};
use each_cmd::outcome::{resolve_race, Completion, Outcome, RaceEvent};

fn config(hostnames: Vec<&str>, thread_count: usize, timeout_ms: u64) -> Config {
    Config {
        hostnames: hostnames.into_iter().map(|h| h.to_string()).collect(),
        cmd_to_run: "echo HOST".to_string(),
        hostname_tag: "HOST".to_string(),
        thread_count,
        timeout_ms,
    }
}

#[test]
fn plans_one_task_per_hostname_in_order() {
    let tasks = plan_tasks(&config(vec!["a", "b"], 2, 1000)).unwrap();
    assert_eq!(tasks.len(), 2);
    assert_eq!(tasks[0].index, 0);
    assert_eq!(tasks[0].rendered_command, "echo a");
    assert_eq!(tasks[1].index, 1);
    assert_eq!(tasks[1].rendered_command, "echo b");
}

#[test]
fn zero_worker_count_is_rejected_before_any_task() {
    let r = plan_tasks(&config(vec!["a", "b"], 0, 1000));
    assert_eq!(r, Err(ConfigError::ZeroWorkerCount));
}

#[test]
fn zero_worker_count_message() {
    assert_eq!(ConfigError::ZeroWorkerCount.message(), "thread count must be positive");
}

#[test]
fn empty_hostname_list_yields_empty_run_result() {
    let tasks = plan_tasks(&config(vec![], 4, 0)).unwrap();
    assert_eq!(tasks.len(), 0);
    let collector = RunCollector::new(tasks.len());
    let result = collector.finish().unwrap();
    assert!(result.is_empty());
}

#[test]
fn duplicate_hostnames_each_get_a_task() {
    let tasks = plan_tasks(&config(vec!["a", "a"], 1, 5)).unwrap();
    assert_eq!(tasks.len(), 2);
    assert_eq!(tasks[0].rendered_command, "echo a");
    assert_eq!(tasks[1].rendered_command, "echo a");
    assert_ne!(tasks[0].index, tasks[1].index);
}

#[test]
fn collector_reorders_completions_by_task_index() {
    let mut collector = RunCollector::new(3);
    // Completion order 2, 0, 1; the run result must come back as 0, 1, 2.
    collector.record(2, Outcome::Success { stdout: "two".to_string(), stderr: String::new() });
    collector.record(0, Outcome::Success { stdout: "zero".to_string(), stderr: String::new() });
    collector.record(1, Outcome::TimedOut);
    let result = collector.finish().unwrap();
    assert_eq!(result.len(), 3);
    assert_eq!(result[0], Outcome::Success { stdout: "zero".to_string(), stderr: String::new() });
    assert_eq!(result[1], Outcome::TimedOut);
    assert_eq!(result[2], Outcome::Success { stdout: "two".to_string(), stderr: String::new() });
}

#[test]
fn collector_is_incomplete_until_every_outcome_arrives() {
    let mut collector = RunCollector::new(2);
    assert!(collector.finish().is_none());
    collector.record(1, Outcome::TimedOut);
    assert!(collector.finish().is_none());
    collector.record(0, Outcome::TimedOut);
    assert!(collector.finish().is_some());
}

#[test]
fn launch_failure_stays_at_its_own_index() {
    let mut collector = RunCollector::new(3);
    collector.record(0, Outcome::Success { stdout: "ok0".to_string(), stderr: String::new() });
    collector.record(1, Outcome::LaunchFailure { cause: "no shell".to_string() });
    collector.record(2, Outcome::Success { stdout: "ok2".to_string(), stderr: String::new() });
    let result = collector.finish().unwrap();
    assert!(matches!(result[0], Outcome::Success { .. }));
    assert!(matches!(result[1], Outcome::LaunchFailure { .. }));
    assert!(matches!(result[2], Outcome::Success { .. }));
}

#[test]
fn two_hostnames_full_run() {
    // hostnames ["a", "b"], template "echo HOST", tag "HOST", two workers,
    // a 1000 ms deadline, and an executor that finishes in time: the run
    // result is a success per hostname, in hostname order, with the
    // hostname on stdout and nothing on stderr.
    let cfg = config(vec!["a", "b"], 2, 1000);
    let tasks = plan_tasks(&cfg).unwrap();
    assert_eq!(tasks[0].rendered_command, "echo a");
    assert_eq!(tasks[1].rendered_command, "echo b");
    let mut collector = RunCollector::new(tasks.len());
    for task in &tasks {
        // A stand-in executor that behaves like the shell on `echo`: the text
        // after "echo " comes back on stdout, stderr stays empty.
        let stdout = task.rendered_command.strip_prefix("echo ").unwrap().to_string();
        let outcome = resolve_race(RaceEvent::ExecutorDone(Completion::Finished {
            stdout,
            stderr: String::new(),
        }));
        collector.record(task.index, outcome);
    }
    let result = collector.finish().unwrap();
    assert_eq!(result.len(), 2);
    assert_eq!(result[0], Outcome::Success { stdout: "a".to_string(), stderr: String::new() });
    assert_eq!(result[1], Outcome::Success { stdout: "b".to_string(), stderr: String::new() });
}
