use hello_web::pool::PoolClosed;
use hello_web::pool::ThreadPool;

#[test]
fn pool_has_exactly_n_workers() {
    let mut pool: ThreadPool<u64> = ThreadPool::new(4);
    assert_eq!(pool.worker_count(), 4);
    for id in 0..4 {
        assert!(pool.worker_is_idle(id));
    }
    // Every worker is responsive: each can take and finish a job.
    for id in 0..4 {
        assert_eq!(pool.execute(id as u64), Ok(()));
    }
    for id in 0..4 {
        assert_eq!(pool.take_job(id), Some(id as u64));
        assert!(pool.worker_is_executing(id));
        pool.finish_job(id);
        assert!(pool.worker_is_idle(id));
    }
}

#[test]
fn every_job_runs_exactly_once() {
    let k: u64 = 5;
    let mut pool: ThreadPool<u64> = ThreadPool::new(1);
    for job in 0..k {
        assert_eq!(pool.execute(job), Ok(()));
    }
    pool.close();

    // One worker drains the queue; each delivered job bumps the counter
    // once, as the job itself would.
    let mut counter: u64 = 0;
    loop {
        match pool.take_job(0) {
            Some(_) => {
                counter += 1;
                pool.finish_job(0);
            }
            None => break,
        }
    }
    assert_eq!(counter, k);
    assert!(pool.worker_is_terminated(0));
}

#[test]
fn jobs_are_delivered_once_and_in_order() {
    let mut pool: ThreadPool<u64> = ThreadPool::new(2);
    assert_eq!(pool.execute(10), Ok(()));
    assert_eq!(pool.execute(20), Ok(()));
    assert_eq!(pool.execute(30), Ok(()));
    pool.close();

    let mut started: Vec<u64> = Vec::new();
    let mut worker: usize = 0;
    loop {
        match pool.take_job(worker) {
            Some(job) => {
                started.push(job);
                pool.finish_job(worker);
                worker = (worker + 1) % 2;
            }
            None => break,
        }
    }
    assert_eq!(started, vec![10, 20, 30]);
}

#[test]
fn shutdown_drains_queued_jobs_first() {
    let mut pool: ThreadPool<u64> = ThreadPool::new(2);
    for job in 0..3 {
        assert_eq!(pool.execute(job), Ok(()));
    }
    pool.close();
    assert_eq!(pool.pending_count(), 3);

    // No worker terminates while jobs are still pending: all three jobs
    // come out before any receive reports the closed queue.
    assert!(pool.take_job(0).is_some());
    pool.finish_job(0);
    assert!(pool.take_job(1).is_some());
    pool.finish_job(1);
    assert!(pool.take_job(0).is_some());
    pool.finish_job(0);
    assert_eq!(pool.pending_count(), 0);

    assert_eq!(pool.take_job(0), None);
    assert_eq!(pool.take_job(1), None);
    assert!(pool.worker_is_terminated(0));
    assert!(pool.worker_is_terminated(1));
}

#[test]
fn saturation_keeps_surplus_jobs_queued() {
    let mut pool: ThreadPool<u64> = ThreadPool::new(2);
    for job in 0..3 {
        assert_eq!(pool.execute(job), Ok(()));
    }

    // Both workers take a job; the third waits, since a worker must be
    // idle to take one.
    assert_eq!(pool.take_job(0), Some(0));
    assert_eq!(pool.take_job(1), Some(1));
    assert!(pool.worker_is_executing(0));
    assert!(pool.worker_is_executing(1));
    assert_eq!(pool.pending_count(), 1);

    // The surplus job is taken only once a worker frees up.
    pool.finish_job(0);
    assert!(pool.worker_is_idle(0));
    assert_eq!(pool.take_job(0), Some(2));
    assert_eq!(pool.pending_count(), 0);
}

#[test]
fn submission_after_close_fails_cleanly() {
    let mut pool: ThreadPool<u64> = ThreadPool::new(2);
    assert_eq!(pool.execute(1), Ok(()));
    pool.close();
    assert!(!pool.is_accepting());

    // The failure is deterministic and leaves the pool intact.
    assert_eq!(pool.execute(2), Err(PoolClosed));
    assert_eq!(pool.execute(3), Err(PoolClosed));
    assert_eq!(pool.pending_count(), 1);

    assert_eq!(pool.take_job(0), Some(1));
    pool.finish_job(0);
    assert_eq!(pool.take_job(0), None);
    assert!(pool.worker_is_terminated(0));
}
