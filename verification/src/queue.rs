use crate::job::Job;
use std::sync::mpsc::Receiver;
use std::sync::mpsc::Sender;
use std::sync::Arc;
use std::sync::Mutex;
use std::sync::MutexGuard;
use vstd::prelude::*;

verus! {

// The job queue is std's multi-producer channel: the pool owns the single
// `Sender`, and all workers share the one `Receiver` behind a `Mutex`. vstd
// gives these std types no specification, so they are declared here and every
// call into them goes through a trusted wrapper. Nothing is claimed about the
// queue's contents: delivery and FIFO order are std's documented behaviour,
// exercised by the crate's tests, not by proofs.
#[verifier::external_type_specification]
#[verifier::external_body]
#[verifier::reject_recursive_types(T)]
pub struct ExSender<T>(Sender<T>);

#[verifier::external_type_specification]
#[verifier::external_body]
#[verifier::reject_recursive_types(T)]
pub struct ExReceiver<T>(Receiver<T>);

#[verifier::external_type_specification]
#[verifier::external_body]
#[verifier::reject_recursive_types(T)]
pub struct ExMutex<T: ?Sized>(Mutex<T>);

#[verifier::external_type_specification]
#[verifier::external_body]
#[verifier::reject_recursive_types(T)]
pub struct ExMutexGuard<'a, T: ?Sized + 'a>(MutexGuard<'a, T>);

/// Relies on `std::sync::mpsc::channel`: creates an unbounded FIFO channel and
/// returns its unique producing and consuming ends.
#[verifier::external_body]
pub(crate) fn job_channel() -> (ends: (Sender<Job>, Receiver<Job>))
{
    std::sync::mpsc::channel()
}

/// Relies on `std::sync::mpsc::Sender::send`: enqueues the job without ever
/// blocking the producer. The result is `true` unless every consuming end has
/// already gone away, in which case the job is dropped.
#[verifier::external_body]
pub(crate) fn send_job(producer: &Sender<Job>, job: Job) -> (delivered: bool)
{
    producer.send(job).is_ok()
}

/// Relies on `std::sync::Mutex::new`: wraps the consuming end in a
/// mutual-exclusion guard so that all workers can share it.
#[verifier::external_body]
pub(crate) fn guard_consumer(consumer: Receiver<Job>) -> (shared: Mutex<Receiver<Job>>)
{
    Mutex::new(consumer)
}

/// Relies on `std::sync::Arc::clone`: the clone is a handle to the very same
/// shared consuming end.
#[verifier::external_body]
pub(crate) fn clone_consumer(shared: &Arc<Mutex<Receiver<Job>>>) -> (clone: Arc<Mutex<Receiver<Job>>>)
    ensures
        clone == *shared,
{
    Arc::clone(shared)
}

/// Relies on `std::sync::Mutex::lock`: blocks until the calling thread holds
/// the guard on the shared consuming end. `None` only if the mutex was
/// poisoned, that is, a thread panicked while holding the guard.
#[verifier::external_body]
pub(crate) fn lock_consumer<'a>(shared: &'a Arc<Mutex<Receiver<Job>>>) -> (guard: Option<
    MutexGuard<'a, Receiver<Job>>,
>)
{
    shared.lock().ok()
}

/// Relies on `std::sync::mpsc::Receiver::recv`: blocks until a job is
/// available (returning `Some`, removing it from the queue so that no other
/// worker ever receives the same job) or until the queue is closed and
/// drained (returning `None`). Receiving requires holding the guard on the
/// shared consuming end, so the guard must be released again before the
/// received job is run; only the act of obtaining a job is serialized.
#[verifier::external_body]
pub(crate) fn recv_job<'a>(consumer: &MutexGuard<'a, Receiver<Job>>) -> (next: Option<Job>)
{
    consumer.recv().ok()
}

} // verus!
