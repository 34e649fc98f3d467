use crate::job::Job;
use crate::queue::clone_consumer;
use crate::queue::guard_consumer;
use crate::queue::job_channel;
use crate::queue::send_job;
use crate::worker::Worker;
use std::sync::mpsc::Receiver;
use std::sync::mpsc::Sender;
use std::sync::Arc;
use std::sync::Mutex;
use vstd::prelude::*;

verus! {

/// Construction parameters were invalid: reported synchronously, before any
/// side effect, and distinct from anything that can happen at runtime.
#[derive(Debug)]
pub struct PoolCreationError {
    pub message: String,
}

/// A fixed-size worker thread pool.
///
/// The pool owns an ordered collection of workers, fixed at construction, and
/// the sole producing handle of the job queue, held as an optional value so
/// that teardown can relinquish it exactly once. While the handle is present
/// submission is possible; `shutdown` relinquishes it, which closes the
/// queue, and then asks the embedder to join every worker thread, in
/// construction order.
///
/// The pool cannot start or join an operating-system thread itself: the
/// embedder supplies a `spawner` at construction, which must start a fresh
/// thread running `worker_step` in a loop on the given consuming end and
/// return that thread's handle `H`, and a `join` at teardown, which must
/// block until the handed-back thread has exited.
pub struct ThreadPool<H> {
    workers: Vec<Worker<H>>,
    sender: Option<Sender<Job>>,
}

impl<H> ThreadPool<H> {
    /// The fixed number of workers of this pool.
    pub closed spec fn spec_size(&self) -> nat {
        self.workers@.len()
    }

    /// Well-formedness: the producing handle is still present, and worker `i`
    /// carries identifier `i` and owns a live thread handle. Construction
    /// establishes this, and every method but the consuming `shutdown`
    /// preserves it.
    pub closed spec fn wf(&self) -> bool {
        &&& self.sender is Some
        &&& forall|i: int|
            0 <= i < self.workers@.len() ==> (#[trigger] self.workers@[i]).spec_id() == i
                && self.workers@[i].owns_thread()
    }

    /// Validates `size`, then creates the job queue and starts exactly `size`
    /// workers, each sharing the queue's consuming end; worker `i` gets
    /// identifier `i`. A `size` of zero is rejected with a construction error
    /// before any side effect, and in particular before any thread starts.
    pub fn new<S: Fn(Arc<Mutex<Receiver<Job>>>) -> H>(size: usize, spawner: S) -> (result:
        Result<ThreadPool<H>, PoolCreationError>)
        requires
            forall|r: Arc<Mutex<Receiver<Job>>>| #[trigger] spawner.requires((r,)),
        ensures
            match result {
                Ok(pool) => size > 0 && pool.wf() && pool.spec_size() == size,
                Err(error) => size == 0 && error.message@ == "Can't create zero pools"@,
            },
    {
        if size == 0 {
            return Err(
                PoolCreationError { message: "Can't create zero pools".to_string() },
            );
        }
        let (sender, receiver) = job_channel();
        let receiver: Arc<Mutex<Receiver<Job>>> = Arc::new(guard_consumer(receiver));
        let mut workers: Vec<Worker<H>> = Vec::with_capacity(size);
        let mut id: usize = 0;
        while id < size
            invariant
                id <= size,
                workers@.len() == id,
                forall|i: int|
                    0 <= i < id ==> (#[trigger] workers@[i]).spec_id() == i
                        && workers@[i].owns_thread(),
                forall|r: Arc<Mutex<Receiver<Job>>>| #[trigger] spawner.requires((r,)),
            decreases size - id,
        {
            let thread = spawner(clone_consumer(&receiver));
            workers.push(Worker::new(id, thread));
            id = id + 1;
        }
        Ok(ThreadPool { workers, sender: Some(sender) })
    }

    /// Hands one job to the queue, to be picked up and run by exactly one
    /// worker. Submission is fire-and-forget: nothing about the job's
    /// completion is reported back. Jobs submitted by one caller reach the
    /// queue in submission order.
    pub fn execute<F>(&self, work: F) where F: FnOnce() + Send + 'static
        requires
            self.wf(),
            work.requires(()),
    {
        let job = Job::new(work);
        send_job(self.sender.as_ref().unwrap(), job);
    }

    /// Blocking, ordered teardown: relinquishes the producing handle, which
    /// closes the queue once the pending jobs are drained, then hands every
    /// worker's thread handle to the embedder's `join`, in construction
    /// order. Each handle is joined exactly once, and the count of joined
    /// threads — exactly the pool's size — is reported back. With a `join`
    /// that blocks until the handed thread has exited, `shutdown` does not
    /// return before every worker thread has finished.
    pub fn shutdown<J: Fn(H)>(self, join: J) -> (joined: usize)
        requires
            self.wf(),
            forall|h: H| #[trigger] join.requires((h,)),
        ensures
            joined == self.spec_size(),
    {
        let ThreadPool { mut workers, sender } = self;
        close_queue(sender);
        let total: usize = workers.len();
        let mut joined: usize = 0;
        while joined < total
            invariant
                joined <= total,
                workers@.len() + joined == total,
                forall|i: int|
                    0 <= i < workers@.len() ==> (#[trigger] workers@[i]).owns_thread(),
                forall|h: H| #[trigger] join.requires((h,)),
            decreases total - joined,
        {
            let mut worker = workers.remove(0);
            match worker.take_thread() {
                Some(thread) => join(thread),
                None => {},
            }
            joined = joined + 1;
        }
        joined
    }
}

/// Consumes, and thereby drops, the pool's producing handle. The queue has no
/// other producer, so from here on it reports closure to the workers as soon
/// as the already queued jobs are drained.
fn close_queue(_producer: Option<Sender<Job>>) {
}

} // verus!
