use vstd::prelude::*;

use core::marker::PhantomData;
use crate::job_fn::JobFn;
use crate::job_fn::job_fn;
use crate::layer::Identity;
use crate::layer::Layer;
use crate::layer::ServiceBuilder;
use crate::layer::Stack;
use crate::request::JobRequest;
use crate::service::Service;
use crate::source::Source;
use crate::worker::ReadyWorker;
use crate::worker::WorkerRef;

verus! {

/// A staged builder that assembles a worker from a source of job requests,
/// an ordered decorator chain, and — at build time — a terminal service.
///
/// Every operation consumes the builder and returns a new one, so a state
/// that has been advanced can never be reused: reaching `build` twice from
/// one builder value is not expressible.
pub struct WorkerBuilder<Job, Src, Middleware> {
    /// The identity of the worker being built.
    pub name: String,
    /// Compile-time marker of the job-item type fixed by the source.
    pub job: PhantomData<Job>,
    /// The decorator chain accumulated so far.
    pub layer: ServiceBuilder<Middleware>,
    /// The attached source, or `()` while none is attached.
    pub source: Src,
}

impl WorkerBuilder<(), (), Identity> {
    /// Start a builder with the given identity, no source yet, and the
    /// empty decorator chain.
    pub fn new(name: String) -> (b: WorkerBuilder<(), (), Identity>)
        ensures
            b.name == name,
            b.layer.layer == Identity,
            b.source == (),
    {
        let job: PhantomData<()> = PhantomData;
        WorkerBuilder { job, layer: ServiceBuilder::new(), source: (), name }
    }
}

impl<J, S, M> WorkerBuilder<J, S, M> {
    /// Attach a source directly. This fixes the job-item type for every
    /// later step; the placeholder slot is filled exactly once, because the
    /// old builder value is consumed.
    pub fn stream<NS: Source<NJ>, NJ>(self, stream: NS) -> (b: WorkerBuilder<NJ, NS, M>)
        ensures
            b.name == self.name,
            b.layer == self.layer,
            b.source == stream,
    {
        WorkerBuilder { job: PhantomData, layer: self.layer, source: stream, name: self.name }
    }

    /// Attach a source built by a constructor that is handed the identity
    /// of the worker under construction, so the source can be parameterized
    /// by it. Otherwise identical in effect to `stream`.
    pub fn with_stream<NS: Fn(WorkerRef) -> ST, NJ, ST: Source<NJ>>(self, stream: NS) -> (b:
        WorkerBuilder<NJ, ST, M>)
        requires
            forall|w: WorkerRef| w.name == self.name ==> call_requires(stream, (w,)),
        ensures
            b.name == self.name,
            b.layer == self.layer,
            exists|w: WorkerRef| w.name == self.name && call_ensures(stream, (w,), b.source),
    {
        let wr = WorkerRef::new(self.name.clone());
        proof {
            assert(wr.name == self.name);
            assert(call_requires(stream, (wr,)));
        }
        let source = stream(wr);
        WorkerBuilder { job: PhantomData, layer: self.layer, source, name: self.name }
    }
}

impl<Job, Strm, Serv> WorkerBuilder<Job, Strm, Serv> {
    /// Decorate the service that will consume jobs by transforming the
    /// whole chain builder at once; lets a caller add several decorators in
    /// one step.
    pub fn middleware<NewService, F: Fn(ServiceBuilder<Serv>) -> ServiceBuilder<NewService>>(
        self,
        f: F,
    ) -> (b: WorkerBuilder<Job, Strm, NewService>)
        requires
            call_requires(f, (self.layer,)),
        ensures
            b.name == self.name,
            b.source == self.source,
            call_ensures(f, (self.layer,), b.layer),
    {
        let middleware = f(self.layer);
        WorkerBuilder { job: self.job, layer: middleware, name: self.name, source: self.source }
    }

    /// Append exactly one decorator; shorthand for a single-element
    /// `middleware`. The chain so far becomes the outer part, so the first
    /// decorator added stays outermost.
    pub fn layer<U>(self, layer: U) -> (b: WorkerBuilder<Job, Strm, Stack<U, Serv>>) where
        Serv: Layer<U>,

        ensures
            b.name == self.name,
            b.source == self.source,
            b.layer.layer == (Stack { inner: layer, outer: self.layer.layer }),
    {
        WorkerBuilder {
            job: self.job,
            source: self.source,
            layer: self.layer.layer(layer),
            name: self.name,
        }
    }
}

/// The worker factory protocol: consume a finished builder together with a
/// terminal service and produce a worker. `build_post` is each factory's
/// account of the worker it hands back.
pub trait WorkerFactory<J, S>: Sized {
    /// The worker this factory builds.
    type Worker;

    /// Which workers building with `service` may produce.
    spec fn build_post(self, service: S, w: Self::Worker) -> bool;

    /// Build a worker around the terminal `service`. Consumes the factory:
    /// a second build from the same value is not expressible.
    fn build(self, service: S) -> (w: Self::Worker)
        ensures
            self.build_post(service, w),
    ;
}

impl<J, S, M, Ser> WorkerFactory<J, Ser> for WorkerBuilder<J, S, M> where
    S: Source<J>,
    M: Layer<Ser>,
    Ser: Service<JobRequest<J>>,
    M::Service: Service<JobRequest<J>>,
 {
    type Worker = ReadyWorker<S, M::Service>;

    /// The built worker keeps the builder's identity and source unchanged,
    /// and its handler is the decorator chain applied, exactly once and
    /// first-added outermost, around the terminal service.
    open spec fn build_post(self, service: Ser, w: ReadyWorker<S, M::Service>) -> bool {
        &&& w.name == self.name
        &&& w.stream == self.source
        &&& self.layer.layer.wraps(service, w.service)
    }

    /// Convert the builder into a worker ready to consume jobs.
    fn build(self, service: Ser) -> (w: ReadyWorker<S, M::Service>) {
        ReadyWorker { name: self.name, stream: self.source, service: self.layer.service(service) }
    }
}

/// The convenience entry to the factory protocol: build from a bare
/// function instead of a full service value. `build_fn_post` plays the same
/// role as `build_post`.
pub trait WorkerFactoryFn<J, F>: Sized {
    /// The worker this factory builds.
    type Worker;

    /// Which workers building from the bare function `f` may produce.
    spec fn build_fn_post(self, f: F, w: Self::Worker) -> bool;

    /// Build a worker whose terminal handling is one invocation of `f` per
    /// request.
    fn build_fn(self, f: F) -> (w: Self::Worker)
        ensures
            self.build_fn_post(f, w),
    ;
}

impl<J, W, F> WorkerFactoryFn<J, F> for W where W: WorkerFactory<J, JobFn<F>> {
    type Worker = W::Worker;

    /// Building from `f` promises exactly what building from the adapter
    /// `job_fn(f)` promises: the two paths are indistinguishable.
    open spec fn build_fn_post(self, f: F, w: W::Worker) -> bool {
        self.build_post((JobFn { f }), w)
    }

    fn build_fn(self, f: F) -> (w: W::Worker) {
        self.build(job_fn(f))
    }
}

} // verus!
