use concurrency_lab::pool::{
    JobOutcome, JobQueue, Pool, PoolError, StepEvent, TakeResult, WorkerPhase,
};

/// Builds a pool or fails the test.
fn pool_of(size: usize) -> Pool {
    match Pool::new(size) {
        Ok(p) => p,
        Err(e) => panic!("pool of size {} refused: {:?}", size, e),
    }
}

#[test]
fn test_queue_delivers_in_order() {
    let mut q: JobQueue<u64> = JobQueue::new();
    assert_eq!(q.push(10), Ok(()));
    assert_eq!(q.push(20), Ok(()));
    assert_eq!(q.take(), TakeResult::Taken(10));
    assert_eq!(q.take(), TakeResult::Taken(20));
    assert_eq!(q.take(), TakeResult::WouldBlock);
}

#[test]
fn test_queue_close_refuses_pushes_and_unblocks() {
    let mut q: JobQueue<u64> = JobQueue::new();
    assert_eq!(q.push(1), Ok(()));
    q.close();
    q.close(); // idempotent
    assert_eq!(q.push(2), Err(2)); // the refused job comes back
    assert_eq!(q.take(), TakeResult::Taken(1)); // drained before the signal
    assert_eq!(q.take(), TakeResult::ClosedSignal);
    assert_eq!(q.take(), TakeResult::ClosedSignal);
}

#[test]
fn test_zero_size_is_invalid_configuration() {
    match Pool::new(0) {
        Err(PoolError::InvalidConfiguration) => {},
        Err(e) => panic!("expected InvalidConfiguration, got {:?}", e),
        Ok(_) => panic!("a zero-size pool was accepted"),
    }
}

#[test]
fn test_100_jobs_across_4_workers() {
    // 100 jobs, each standing for one counter increment: after shutdown
    // every one of them has run exactly once
    let mut pool = pool_of(4);
    for i in 0..100u64 {
        assert_eq!(pool.submit(), Ok(i));
    }
    assert_eq!(pool.shutdown(), Ok(()));
    assert_eq!(pool.completed_count(), 100);
    assert_eq!(pool.pending_count(), 0);
    assert_eq!(pool.submitted_count(), 100);
    println!("All 100 jobs completed!");
}

#[test]
fn test_all_jobs_complete_two_workers() {
    // size = 2, k = 8: the counter reading after shutdown is exactly 8
    let mut pool = pool_of(2);
    for _ in 0..8 {
        pool.submit().unwrap();
    }
    assert_eq!(pool.shutdown(), Ok(()));
    assert_eq!(pool.completed_count(), 8);
}

#[test]
fn test_more_jobs_than_workers_each_runs_once() {
    // M = 10 jobs over N = 3 workers: every job is delivered exactly once
    let mut pool = pool_of(3);
    for i in 0..10u64 {
        assert_eq!(pool.submit(), Ok(i));
    }
    // drive the workers by hand, round robin, until the queue is drained
    let mut delivered = Vec::new();
    let mut turn: usize = 0;
    loop {
        match pool.worker_step(turn % 3, JobOutcome::Completed) {
            StepEvent::Ran(job) => delivered.push(job),
            StepEvent::Parked => break,
            other => panic!("unexpected event {:?}", other),
        }
        turn += 1;
    }
    // delivery order is submission order, each id once
    let expected: Vec<u64> = (0..10).collect();
    assert_eq!(delivered, expected);
    assert_eq!(pool.shutdown(), Ok(()));
    assert_eq!(pool.completed_count(), 10);
}

#[test]
fn test_shutdown_waits_for_accepted_work() {
    // the barrier: when shutdown returns, the slow job's effect is visible
    let mut pool = pool_of(2);
    pool.submit().unwrap();
    assert_eq!(pool.pending_count(), 1);
    assert_eq!(pool.shutdown(), Ok(()));
    // nothing accepted is still pending, so the job has run
    assert_eq!(pool.pending_count(), 0);
    assert_eq!(pool.completed_count(), 1);
}

#[test]
fn test_submit_after_shutdown_fails_without_effect() {
    let mut pool = pool_of(2);
    pool.submit().unwrap();
    assert_eq!(pool.shutdown(), Ok(()));
    let before = pool.submitted_count();
    match pool.submit() {
        Err(PoolError::PoolClosed) => {},
        other => panic!("expected PoolClosed, got {:?}", other),
    }
    assert_eq!(pool.submitted_count(), before);
    assert_eq!(pool.pending_count(), 0);
    assert!(!pool.is_active());
}

#[test]
fn test_faulting_job_spares_queued_work() {
    // one job faults its worker; the other worker still drains the rest,
    // and shutdown surfaces the failure instead of losing it
    let mut pool = pool_of(2);
    for i in 0..3u64 {
        assert_eq!(pool.submit(), Ok(i));
    }
    assert_eq!(pool.worker_step(0, JobOutcome::Faulted), StepEvent::Faulted(0));
    assert_eq!(pool.worker_phase(0), WorkerPhase::Failed);
    assert_eq!(pool.worker_step(1, JobOutcome::Completed), StepEvent::Ran(1));
    match pool.shutdown() {
        Err(PoolError::WorkerFailure) => {},
        other => panic!("expected WorkerFailure, got {:?}", other),
    }
    // the two healthy jobs both ran; only the faulting one did not complete
    assert_eq!(pool.completed_count(), 2);
    assert_eq!(pool.pending_count(), 0);
    assert_eq!(pool.worker_phase(1), WorkerPhase::Terminated);
}

#[test]
fn test_worker_parks_on_open_empty_queue() {
    let mut pool = pool_of(1);
    assert_eq!(pool.worker_step(0, JobOutcome::Completed), StepEvent::Parked);
    assert_eq!(pool.worker_phase(0), WorkerPhase::Running);
    assert!(pool.is_active());
}

#[test]
fn test_worker_count_is_construction_size() {
    let pool = pool_of(5);
    assert_eq!(pool.worker_count(), 5);
    for w in 0..5 {
        assert_eq!(pool.worker_phase(w), WorkerPhase::Running);
    }
}

#[test]
fn test_shutdown_with_no_jobs() {
    let mut pool = pool_of(3);
    assert_eq!(pool.shutdown(), Ok(()));
    assert_eq!(pool.completed_count(), 0);
    for w in 0..3 {
        assert_eq!(pool.worker_phase(w), WorkerPhase::Terminated);
    }
}
