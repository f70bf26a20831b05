use each_cmd::pool::WorkerPool;

#[test]
fn admits_up_to_capacity_then_queues() {
    let mut pool = WorkerPool::new(2);
    assert!(pool.submit(0));
    assert!(pool.submit(1));
    assert!(!pool.submit(2));
    assert!(!pool.submit(3));
}

#[test]
fn queued_tasks_are_admitted_in_submission_order() {
    let mut pool = WorkerPool::new(1);
    assert!(pool.submit(0));
    assert!(!pool.submit(1));
    assert!(!pool.submit(2));
    // Slots free one at a time; the queue drains first-submitted first.
    assert_eq!(pool.task_finished(), Some(1));
    assert_eq!(pool.task_finished(), Some(2));
    assert_eq!(pool.task_finished(), None);
}

#[test]
fn single_worker_runs_tasks_one_after_another() {
    // With one worker every later submission waits until the running task
    // finishes: the run is fully serialized.
    let mut pool = WorkerPool::new(1);
    assert!(pool.submit(0));
    assert!(!pool.submit(1));
    assert_eq!(pool.task_finished(), Some(1));
    assert_eq!(pool.task_finished(), None);
    // Now the pool is idle again and admits at once.
    assert!(pool.submit(2));
}

#[test]
fn freed_slot_is_reused_by_new_submissions() {
    let mut pool = WorkerPool::new(2);
    assert!(pool.submit(0));
    assert!(pool.submit(1));
    assert_eq!(pool.task_finished(), None);
    assert!(pool.submit(2));
    assert!(!pool.submit(3));
}
