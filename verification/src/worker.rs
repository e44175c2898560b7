use vstd::prelude::*;

verus! {

/// The terminal product of the builder: an identity, the attached source,
/// and the fully decorated handler, moved in at build time and never
/// reassigned afterwards.
pub struct ReadyWorker<S, Serv> {
    /// The identity the builder was created with, propagated unchanged.
    pub name: String,
    /// The source of job requests the worker will draw from.
    pub stream: S,
    /// The decorator chain applied around the terminal service.
    pub service: Serv,
}

/// A reference to the identity of a worker under construction, handed to
/// source constructors so a source can be parameterized by it.
pub struct WorkerRef {
    /// The worker's identity.
    pub name: String,
}

impl WorkerRef {
    /// Wrap a worker identity.
    pub fn new(name: String) -> (r: WorkerRef)
        ensures
            r == (WorkerRef { name }),
    {
        WorkerRef { name }
    }
}

} // verus!
