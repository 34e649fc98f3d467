use server::run_next;
use server::worker_step;
use server::Job;
use server::ThreadPool;
use std::sync::atomic::AtomicUsize;
use std::sync::atomic::Ordering;
use std::sync::mpsc::Receiver;
use std::sync::Arc;
use std::sync::Mutex;

type Shared = Arc<Mutex<Receiver<Job>>>;

/// Builds a pool whose "threads" are nothing at all and collects the shared
/// consuming ends the pool hands out, so a test can drain the queue itself by
/// running `worker_step` on the current thread.
fn pool_and_consumers(size: usize) -> (ThreadPool<()>, Vec<Shared>) {
    let saved: Mutex<Vec<Shared>> = Mutex::new(Vec::new());
    let pool = ThreadPool::new(size, |receiver: Shared| {
        saved.lock().unwrap().push(receiver);
    })
    .unwrap();
    let consumers = saved.into_inner().unwrap();
    (pool, consumers)
}

#[test]
fn zero_size_is_rejected_with_error_and_no_worker() {
    let spawned = AtomicUsize::new(0);
    let result = ThreadPool::<()>::new(0, |_receiver: Shared| {
        spawned.fetch_add(1, Ordering::SeqCst);
    });
    let error = match result {
        Ok(_) => panic!("a pool of size zero must not be created"),
        Err(error) => error,
    };
    assert_eq!(error.message, "Can't create zero pools");
    assert_eq!(spawned.load(Ordering::SeqCst), 0);
}

#[test]
fn construction_starts_exactly_one_thread_per_worker() {
    let spawned = AtomicUsize::new(0);
    let pool = ThreadPool::new(4, |_receiver: Shared| {
        spawned.fetch_add(1, Ordering::SeqCst)
    })
    .unwrap();
    assert_eq!(spawned.load(Ordering::SeqCst), 4);
    let joined = pool.shutdown(|_handle| {});
    assert_eq!(joined, 4);
}

#[test]
fn every_job_runs_exactly_once() {
    let (pool, consumers) = pool_and_consumers(1);
    let log: Arc<Mutex<Vec<usize>>> = Arc::new(Mutex::new(Vec::new()));
    let count: usize = 10;
    for token in 0..count {
        let log = Arc::clone(&log);
        pool.execute(move || {
            log.lock().unwrap().push(token);
        });
    }
    assert_eq!(pool.shutdown(|_handle| {}), 1);
    while worker_step(&consumers[0]) {}
    let seen = log.lock().unwrap();
    assert_eq!(seen.len(), count);
    for token in 0..count {
        assert_eq!(seen.iter().filter(|&&t| t == token).count(), 1);
    }
}

#[test]
fn single_worker_runs_jobs_in_submission_order() {
    let (pool, consumers) = pool_and_consumers(1);
    let log: Arc<Mutex<Vec<char>>> = Arc::new(Mutex::new(Vec::new()));
    for token in ['a', 'b', 'c'] {
        let log = Arc::clone(&log);
        pool.execute(move || {
            log.lock().unwrap().push(token);
        });
    }
    pool.shutdown(|_handle| {});
    while worker_step(&consumers[0]) {}
    assert_eq!(*log.lock().unwrap(), vec!['a', 'b', 'c']);
}

#[test]
fn counter_reaches_ten_with_three_workers() {
    let (pool, consumers) = pool_and_consumers(3);
    let counter = Arc::new(AtomicUsize::new(0));
    for _ in 0..10 {
        let counter = Arc::clone(&counter);
        pool.execute(move || {
            counter.fetch_add(1, Ordering::SeqCst);
        });
    }
    assert_eq!(pool.shutdown(|_handle| {}), 3);
    for consumer in &consumers {
        while worker_step(consumer) {}
    }
    assert_eq!(counter.load(Ordering::SeqCst), 10);
}

#[test]
fn closed_queue_is_observed_as_termination_by_every_worker() {
    let (pool, consumers) = pool_and_consumers(2);
    pool.shutdown(|_handle| {});
    // after teardown no job can be delivered: every consumer sees the closed
    // signal at once, and keeps seeing it
    assert!(!worker_step(&consumers[0]));
    assert!(!worker_step(&consumers[1]));
    assert!(!worker_step(&consumers[0]));
}

#[test]
fn shutdown_joins_every_worker_once_in_construction_order() {
    let next_id = AtomicUsize::new(0);
    let pool = ThreadPool::new(3, |_receiver: Shared| {
        next_id.fetch_add(1, Ordering::SeqCst)
    })
    .unwrap();
    let joined_ids: Mutex<Vec<usize>> = Mutex::new(Vec::new());
    let joined = pool.shutdown(|handle| {
        joined_ids.lock().unwrap().push(handle);
    });
    assert_eq!(joined, 3);
    assert_eq!(*joined_ids.lock().unwrap(), vec![0, 1, 2]);
}

#[test]
fn no_delivery_is_the_terminate_decision() {
    // the queue yielded nothing: the worker's one decision is to terminate
    assert!(!run_next(None));
}

#[test]
fn jobs_submitted_before_teardown_still_run_after_it() {
    let (pool, consumers) = pool_and_consumers(1);
    let done = Arc::new(AtomicUsize::new(0));
    let flag = Arc::clone(&done);
    pool.execute(move || {
        flag.fetch_add(1, Ordering::SeqCst);
    });
    pool.shutdown(|_handle| {});
    assert_eq!(done.load(Ordering::SeqCst), 0);
    while worker_step(&consumers[0]) {}
    assert_eq!(done.load(Ordering::SeqCst), 1);
}
