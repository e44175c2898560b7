use vstd::prelude::*;

use crate::request::JobRequest;
use crate::service::Service;

verus! {

/// The minimal adapter that turns a bare function into a handler: one
/// invocation of the function is the entire terminal handling operation.
pub struct JobFn<F> {
    /// The wrapped function.
    pub f: F,
}

/// Wrap `f` so it can stand where a full service is expected.
pub fn job_fn<F>(f: F) -> (j: JobFn<F>)
    ensures
        j == (JobFn { f }),
{
    JobFn { f }
}

impl<J, F, R, E> Service<JobRequest<J>> for JobFn<F> where F: Fn(JobRequest<J>) -> Result<R, E> {
    type Response = R;

    type Error = E;

    /// A call is permitted exactly when the wrapped function accepts the
    /// request.
    open spec fn pre(self, req: JobRequest<J>) -> bool {
        call_requires(self.f, (req,))
    }

    /// The adapter holds no state of its own, and its outcomes are exactly
    /// the wrapped function's outcomes.
    open spec fn post(self, req: JobRequest<J>, next: Self, out: Result<R, E>) -> bool {
        next == self && call_ensures(self.f, (req,), out)
    }

    fn call(&mut self, req: JobRequest<J>) -> (out: Result<R, E>) {
        (self.f)(req)
    }
}

} // verus!
