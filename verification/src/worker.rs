use crate::job::Job;
use crate::queue::lock_consumer;
use crate::queue::recv_job;
use std::sync::mpsc::Receiver;
use std::sync::Arc;
use std::sync::Mutex;
use vstd::prelude::*;

verus! {

/// One worker of the pool: a stable identifier paired with at most one live
/// execution thread. The thread itself is owned through the embedder's handle
/// type `H`, so that the pool can hand each handle back for joining at
/// teardown; the pool never inspects a handle.
pub struct Worker<H> {
    id: usize,
    thread: Option<H>,
}

impl<H> Worker<H> {
    /// The worker's stable identifier.
    pub closed spec fn spec_id(&self) -> usize {
        self.id
    }

    /// Whether the worker still owns the handle of its execution thread.
    pub closed spec fn owns_thread(&self) -> bool {
        self.thread is Some
    }

    /// Pairs a freshly started thread's handle with the worker's identifier.
    pub(crate) fn new(id: usize, thread: H) -> (worker: Worker<H>)
        ensures
            worker.spec_id() == id,
            worker.owns_thread(),
    {
        Worker { id, thread: Some(thread) }
    }

    /// Takes the worker's thread handle out for joining. The handle is
    /// surrendered at most once: a second call finds none.
    pub(crate) fn take_thread(&mut self) -> (thread: Option<H>)
        ensures
            thread is Some <==> old(self).owns_thread(),
            !final(self).owns_thread(),
            final(self).spec_id() == old(self).spec_id(),
    {
        self.thread.take()
    }
}

/// One round of a worker thread's life, to be repeated until it returns
/// `false`: the worker thread's body is `while worker_step(&receiver) {}`.
///
/// A step walks the worker's states: waiting (blocked until the shared guard
/// is held and the queue yields), then either executing (the guard released
/// first, then the job run to completion on this thread; the result is
/// `true`: wait again) or terminated (the queue reported closure with
/// nothing pending, or the guard was poisoned by a peer's panic; the result
/// is `false`: the loop must exit and the thread end). The guard is held
/// only for the act of obtaining one job, never while a job runs, so workers
/// execute jobs in parallel.
pub fn worker_step(receiver: &Arc<Mutex<Receiver<Job>>>) -> (proceed: bool) {
    let next: Option<Job> = match lock_consumer(receiver) {
        Some(guard) => recv_job(&guard),
        None => None,
    };
    // the guard went out of scope above: the job runs without it
    run_next(next)
}

/// The decision half of a worker's step, on what the queue yielded: a
/// delivered job is run to completion on this thread and the worker goes on
/// waiting (`true`); no job means the queue is closed and drained (or its
/// guard poisoned), and the worker must terminate (`false`). The step
/// reports termination exactly when the queue yields no job, so a worker
/// never exits while jobs are still handed to it, and never runs on after
/// the closed signal.
pub fn run_next(next: Option<Job>) -> (proceed: bool)
    ensures
        proceed == (next is Some),
{
    match next {
        Some(job) => {
            job.run();
            true
        },
        None => false,
    }
}

} // verus!
