use vstd::prelude::*;

verus! {

/// A type-erased, single-invocation unit of work.
///
/// A `Job` captures everything it needs at creation time, takes no arguments,
/// returns nothing, and is run at most once by exactly one worker. The boxed
/// closure inside is opaque: nothing about a job's effect is stated or proved
/// here; the pool only moves jobs from the submitter to a worker.
#[verifier::external_body]
pub struct Job {
    work: Box<dyn FnOnce() + Send + 'static>,
}

impl Job {
    /// Boxes a closure as a job. Relies on `Box::new` for the type-erased
    /// closure; the caller must show the closure's precondition here, so that
    /// running the job later needs nothing further.
    #[verifier::external_body]
    pub(crate) fn new<F: FnOnce() + Send + 'static>(work: F) -> (job: Job)
        requires
            work.requires(()),
    {
        Job { work: Box::new(work) }
    }

    /// Invokes the boxed closure, consuming the job. Relies on the call through
    /// `Box<dyn FnOnce()>`: the closure was admitted by `Job::new` with its
    /// precondition established, and it is invoked exactly once.
    #[verifier::external_body]
    pub(crate) fn run(self) {
        (self.work)()
    }
}

} // verus!
