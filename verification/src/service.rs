use vstd::prelude::*;

verus! {

/// The handler capability: accept one request value, produce one
/// result-or-error. A terminal job processor, a decorated chain, and every
/// intermediate stage of a decorator stack all satisfy this contract.
///
/// Each implementation explains itself through two spec functions:
/// `pre` says when a call is permitted, and `post` relates the state
/// before the call, the request, the state after the call and the outcome.
/// Everything proved about a built worker's handler flows through `post`.
pub trait Service<Request>: Sized {
    /// What a successful call yields.
    type Response;

    /// The typed failure a call may surface instead of a response.
    type Error;

    /// When this service may be asked to handle `req`.
    spec fn pre(self, req: Request) -> bool;

    /// How a call from state `self` on `req` may end: in state `next`
    /// with outcome `out`.
    spec fn post(self, req: Request, next: Self, out: Result<Self::Response, Self::Error>) -> bool;

    /// Handle one request.
    fn call(&mut self, req: Request) -> (out: Result<Self::Response, Self::Error>)
        requires
            old(self).pre(req),
        ensures
            old(self).post(req, *final(self), out),
    ;
}

} // verus!
