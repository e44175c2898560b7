use vstd::prelude::*;

use crate::layer::Layer;
use crate::request::JobRequest;
use crate::service::Service;

verus! {

/// A decorator that records the order in which the chain runs: its
/// pre-logic appends its marker to the request payload on the way in, and
/// its post-logic appends the same marker to the response on the way out.
/// Together with `EchoService` it makes the execution order of a decorator
/// chain observable and provable.
pub struct TraceService<H> {
    /// The marker this stage writes.
    pub marker: u64,
    /// The rest of the chain, down to the terminal handler.
    pub inner: H,
}

/// The decorator that wraps a handler in a `TraceService` stage.
pub struct TraceLayer {
    /// The marker the new stage will write.
    pub marker: u64,
}

impl<H> Layer<H> for TraceLayer {
    type Service = TraceService<H>;

    open spec fn wraps(self, inner: H, out: TraceService<H>) -> bool {
        out == (TraceService { marker: self.marker, inner })
    }

    fn layer(self, inner: H) -> (out: TraceService<H>) {
        TraceService { marker: self.marker, inner }
    }
}

impl<H, E> Service<JobRequest<Vec<u64>>> for TraceService<H> where
    H: Service<JobRequest<Vec<u64>>, Response = Vec<u64>, Error = E>,
 {
    type Response = Vec<u64>;

    type Error = E;

    /// The inner chain must accept the request once this stage's marker has
    /// been appended to it.
    open spec fn pre(self, req: JobRequest<Vec<u64>>) -> bool {
        forall|marked: JobRequest<Vec<u64>>|
            marked.payload@ == req.payload@.push(self.marker) && marked.attempts == req.attempts
                ==> #[trigger] self.inner.pre(marked)
    }

    /// On the way in the request gains this stage's marker; the inner chain
    /// then runs; on the way out a response gains the marker again, while an
    /// error passes through unchanged.
    open spec fn post(
        self,
        req: JobRequest<Vec<u64>>,
        next: Self,
        out: Result<Vec<u64>, E>,
    ) -> bool {
        &&& next.marker == self.marker
        &&& exists|marked: JobRequest<Vec<u64>>, mid: Result<Vec<u64>, E>|
            {
                &&& marked.payload@ == req.payload@.push(self.marker)
                &&& marked.attempts == req.attempts
                &&& #[trigger] self.inner.post(marked, next.inner, mid)
                &&& match (mid, out) {
                    (Ok(mv), Ok(ov)) => ov@ == mv@.push(self.marker),
                    (Err(me), Err(oe)) => oe == me,
                    _ => false,
                }
            }
    }

    fn call(&mut self, req: JobRequest<Vec<u64>>) -> (out: Result<Vec<u64>, E>) {
        let mut payload = req.payload;
        payload.push(self.marker);
        let marked = JobRequest { payload, attempts: req.attempts };
        proof {
            assert(marked.payload@ == req.payload@.push(old(self).marker));
        }
        let mid = self.inner.call(marked);
        let ghost snapshot_mid = mid;
        match mid {
            Ok(mut response) => {
                response.push(self.marker);
                let out = Ok(response);
                proof {
                    assert(old(self).inner.post(marked, self.inner, snapshot_mid));
                    assert(old(self).post(req, *self, out));
                }
                out
            },
            Err(e) => {
                let out = Err(e);
                proof {
                    assert(old(self).inner.post(marked, self.inner, snapshot_mid));
                    assert(old(self).post(req, *self, out));
                }
                out
            },
        }
    }
}

/// The terminal probe for tracing: it answers every request with the
/// request's own payload, so the response shows exactly which markers the
/// chain wrote before the terminal handler was reached.
pub struct EchoService;

impl Service<JobRequest<Vec<u64>>> for EchoService {
    type Response = Vec<u64>;

    type Error = ();

    open spec fn pre(self, req: JobRequest<Vec<u64>>) -> bool {
        true
    }

    open spec fn post(
        self,
        req: JobRequest<Vec<u64>>,
        next: Self,
        out: Result<Vec<u64>, ()>,
    ) -> bool {
        match out {
            Ok(response) => response@ == req.payload@,
            Err(e) => false,
        }
    }

    fn call(&mut self, req: JobRequest<Vec<u64>>) -> (out: Result<Vec<u64>, ()>) {
        Ok(req.payload)
    }
}

} // verus!
