use vstd::prelude::*;

use crate::request::JobRequest;

verus! {

/// The source capability: a pull-based, possibly unbounded producer of job
/// requests. A poll distinguishes three outcomes: `Ok(Some(_))` hands out
/// the next request, `Ok(None)` says nothing is available right now (the
/// consumer should poll again later; it is not end-of-stream), and `Err(_)`
/// reports a typed source failure.
///
/// This crate only stores a source inside a built worker; polling it is the
/// business of whatever drives the worker, so the capability carries no
/// contract of its own.
pub trait Source<J> {
    /// The typed failure a poll may surface.
    type Error;

    /// Ask for the next request, without blocking on its absence.
    fn poll_next(&mut self) -> Result<Option<JobRequest<J>>, Self::Error>;
}

} // verus!
