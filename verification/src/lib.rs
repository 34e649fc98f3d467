//! A fixed-size worker thread pool.
//!
//! A `ThreadPool` owns a fixed set of long-lived worker threads that share the
//! consuming end of an unbounded FIFO job queue. Callers submit one-shot,
//! type-erased units of work; each is run to completion by exactly one worker.
//! Tearing the pool down closes the queue, lets the workers drain the pending
//! jobs, and blocks until every worker thread has exited.
//!
//! Starting and joining operating-system threads is the embedder's part: the
//! pool asks for each thread through a spawner closure at construction —
//! which must run [`worker_step`] in a loop on the thread it starts — and
//! hands every thread's handle back for joining at teardown. Everything in
//! between — validation, worker identities, submission, the worker's
//! dequeue-and-run step, and the ordered teardown — is verified here.

mod job;
mod pool;
mod queue;
mod worker;

pub use job::Job;
pub use pool::PoolCreationError;
pub use pool::ThreadPool;
pub use worker::run_next;
pub use worker::worker_step;
