use vstd::prelude::*;

verus! {

/// An envelope carrying one job payload together with its processing
/// metadata. The builder and factory never look inside the payload; they
/// only move envelopes from a source towards a handler.
pub struct JobRequest<J> {
    /// The job itself.
    pub payload: J,
    /// How many times this request has been handed to a handler.
    pub attempts: u32,
}

impl<J> JobRequest<J> {
    /// Wrap a fresh payload that has not been attempted yet.
    pub fn new(payload: J) -> (r: JobRequest<J>)
        ensures
            r == (JobRequest { payload, attempts: 0u32 }),
    {
        JobRequest { payload, attempts: 0 }
    }
}

} // verus!
