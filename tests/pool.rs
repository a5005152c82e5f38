use tl_scraper::pool::{JobPool, PoolStats, PoolStatus};

#[test]
fn two_slots_three_jobs() {
    let mut pool = JobPool::new(2);
    let mut waiting = 3;
    let mut finished = 0;
    let mut most = 0;
    while pool.status() == PoolStatus::Running {
        if waiting > 0 && pool.may_accept() {
            waiting -= 1;
            pool.on_job_started();
        } else if pool.may_reap() {
            pool.on_job_finished(true);
            finished += 1;
        } else if waiting == 0 {
            pool.on_channel_closed();
        }
        most = most.max(pool.in_flight());
        assert!(pool.in_flight() <= 2);
    }
    assert_eq!(pool.status(), PoolStatus::Finished);
    assert_eq!(finished, 3);
    assert_eq!(most, 2);
}

#[test]
fn chain_of_spawned_jobs_finishes_after_the_last() {
    let mut pool = JobPool::new(4);
    // Job A runs; it holds a handle and spawns B, which spawns C.
    pool.on_job_started();
    pool.on_job_finished(true);
    assert_eq!(pool.status(), PoolStatus::Running);
    pool.on_job_started();
    pool.on_job_finished(true);
    assert_eq!(pool.status(), PoolStatus::Running);
    pool.on_job_started();
    // C's handle is the last one; it is dropped as C finishes.
    pool.on_channel_closed();
    assert_eq!(pool.status(), PoolStatus::Running);
    pool.on_job_finished(true);
    assert_eq!(pool.status(), PoolStatus::Finished);
}

#[test]
fn first_error_stops_the_pool() {
    let mut pool = JobPool::new(3);
    pool.on_job_started();
    pool.on_job_started();
    pool.on_job_finished(false);
    assert_eq!(pool.status(), PoolStatus::Failed);
    assert!(!pool.may_accept());
    assert!(!pool.may_reap());
}

#[test]
fn idle_pool_ends_when_handles_are_dropped() {
    let mut pool = JobPool::new(1);
    assert_eq!(pool.status(), PoolStatus::Running);
    assert!(pool.may_accept());
    pool.on_channel_closed();
    assert!(!pool.may_accept());
    assert_eq!(pool.status(), PoolStatus::Finished);
}

#[test]
fn counters_follow_the_jobs() {
    let mut pool = JobPool::new(2);
    pool.on_job_started();
    pool.on_job_started();
    assert_eq!(pool.stats(3), PoolStats { jobs_submitted: 3, jobs_started: 2, jobs_completed: 0 });
    pool.on_job_finished(true);
    pool.on_job_started();
    pool.on_job_finished(true);
    pool.on_job_finished(true);
    pool.on_channel_closed();
    assert_eq!(pool.status(), PoolStatus::Finished);
    assert_eq!(pool.jobs_started(), 3);
    assert_eq!(pool.jobs_completed(), 3);
    assert_eq!(pool.stats(3), PoolStats { jobs_submitted: 3, jobs_started: 3, jobs_completed: 3 });
}
