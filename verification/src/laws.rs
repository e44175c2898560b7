use vstd::prelude::*;

use crate::builder::WorkerBuilder;
use crate::builder::WorkerFactory;
use crate::builder::WorkerFactoryFn;
use crate::job_fn::JobFn;
use crate::layer::Identity;
use crate::layer::Layer;
use crate::layer::Stack;
use crate::request::JobRequest;
use crate::service::Service;
use crate::source::Source;
use crate::trace::EchoService;
use crate::trace::TraceLayer;
use crate::trace::TraceService;
use crate::worker::ReadyWorker;

verus! {

/// A worker built through an empty decorator chain keeps the builder's
/// identity exactly, owns the builder's source, and installs the terminal
/// service unchanged.
pub proof fn lemma_identity_propagates<J, S, Ser>(
    name: String,
    b: WorkerBuilder<J, S, Identity>,
    service: Ser,
    w: ReadyWorker<S, Ser>,
) where S: Source<J>, Ser: Service<JobRequest<J>>
    requires
        b.name == name,
        b.build_post(service, w),
    ensures
        w.name == name,
        w.stream == b.source,
        w.service == service,
{
}

/// Building from a bare function promises exactly what building from the
/// wrapped adapter promises: the convenience path and the primary path are
/// indistinguishable for the same function.
pub proof fn lemma_build_fn_matches_build<J, W, F>(factory: W, f: F, w: W::Worker) where
    W: WorkerFactory<J, JobFn<F>>,

    ensures
        factory.build_fn_post(f, w) == factory.build_post((JobFn { f }), w),
{
}

/// Decoration neutrality: when every decorator in the chain is a pure
/// pass-through (wrapping hands the inner service back unchanged) and the
/// terminal function maps the request to one fixed response, the built
/// worker yields that response, unchanged by the chain, and the handler's
/// state is untouched.
pub proof fn lemma_decoration_neutrality<J, S, F, R, E, L1, L2>(
    b: WorkerBuilder<J, S, Stack<L2, Stack<L1, Identity>>>,
    f: F,
    w: ReadyWorker<S, JobFn<F>>,
    req: JobRequest<J>,
    next: JobFn<F>,
    out: Result<R, E>,
    expected: R,
) where
    S: Source<J>,
    F: Fn(JobRequest<J>) -> Result<R, E>,
    L1: Layer<JobFn<F>, Service = JobFn<F>>,
    L2: Layer<JobFn<F>, Service = JobFn<F>>,

    requires
        b.build_post((JobFn { f }), w),
        forall|i: JobFn<F>, o: JobFn<F>| #[trigger] b.layer.layer.inner.wraps(i, o) ==> o == i,
        forall|i: JobFn<F>, o: JobFn<F>|
            #[trigger] b.layer.layer.outer.inner.wraps(i, o) ==> o == i,
        w.service.post(req, next, out),
        forall|o: Result<R, E>| call_ensures(f, (req,), o) ==> o == Ok::<R, E>(expected),
    ensures
        w.service == (JobFn { f }),
        next == w.service,
        out == Ok::<R, E>(expected),
{
    assert(w.service == (JobFn { f }));
}

/// The nesting rule, for any two decorators of any types: a chain built by
/// appending `first` and then `second` wraps the terminal service with
/// `second` first, and `first` around everything — so the first decorator
/// added is the outermost layer and the terminal service is innermost.
pub proof fn lemma_first_added_outermost<S, DFirst, DSecond>(
    chain: Stack<DSecond, Stack<DFirst, Identity>>,
    terminal: S,
    composed: DFirst::Service,
) where DSecond: Layer<S>, DFirst: Layer<DSecond::Service>
    requires
        chain.wraps(terminal, composed),
    ensures
        exists|mid: DSecond::Service|
            chain.inner.wraps(terminal, mid) && #[trigger] chain.outer.inner.wraps(mid, composed),
{
    let mid = choose|mid: DSecond::Service|
        chain.inner.wraps(terminal, mid) && #[trigger] chain.outer.wraps(mid, composed);
    let mid2 = choose|mid2: DFirst::Service|
        chain.outer.inner.wraps(mid, mid2) && #[trigger] chain.outer.outer.wraps(mid2, composed);
    assert(chain.outer.inner.wraps(mid, composed));
}

/// Decorators run in the order the caller supplied them: in a worker built
/// from two trace decorators around the echo probe, the first-added
/// decorator writes its marker first on the way in and last on the way out,
/// so a call's response reads request, then `m1`, `m2` going in and `m2`,
/// `m1` unwinding.
pub proof fn lemma_trace_order<S>(
    b: WorkerBuilder<Vec<u64>, S, Stack<TraceLayer, Stack<TraceLayer, Identity>>>,
    w: ReadyWorker<S, TraceService<TraceService<EchoService>>>,
    req: JobRequest<Vec<u64>>,
    next: TraceService<TraceService<EchoService>>,
    out: Result<Vec<u64>, ()>,
    m1: u64,
    m2: u64,
) where S: Source<Vec<u64>>
    requires
        b.layer.layer == (Stack {
            inner: (TraceLayer { marker: m2 }),
            outer: (Stack { inner: (TraceLayer { marker: m1 }), outer: Identity }),
        }),
        b.build_post(EchoService, w),
        w.service.post(req, next, out),
    ensures
        w.service == (TraceService {
            marker: m1,
            inner: (TraceService { marker: m2, inner: EchoService }),
        }),
        out matches Ok(trace) && trace@ == req.payload@.push(m1).push(m2).push(m2).push(m1),
{
    let svc_mid = TraceService { marker: m2, inner: EchoService };
    let svc_all = TraceService { marker: m1, inner: svc_mid };
    assert(w.service == svc_all);
    let (marked1, mid1): (JobRequest<Vec<u64>>, Result<Vec<u64>, ()>) = choose|
        marked1: JobRequest<Vec<u64>>,
        mid1: Result<Vec<u64>, ()>,
    |
        {
            &&& marked1.payload@ == req.payload@.push(m1)
            &&& marked1.attempts == req.attempts
            &&& #[trigger] svc_mid.post(marked1, next.inner, mid1)
            &&& match (mid1, out) {
                (Ok(mv), Ok(ov)) => ov@ == mv@.push(m1),
                (Err(me), Err(oe)) => oe == me,
                _ => false,
            }
        };
    let (marked2, mid2): (JobRequest<Vec<u64>>, Result<Vec<u64>, ()>) = choose|
        marked2: JobRequest<Vec<u64>>,
        mid2: Result<Vec<u64>, ()>,
    |
        {
            &&& marked2.payload@ == marked1.payload@.push(m2)
            &&& marked2.attempts == marked1.attempts
            &&& #[trigger] EchoService.post(marked2, next.inner.inner, mid2)
            &&& match (mid2, mid1) {
                (Ok(mv), Ok(ov)) => ov@ == mv@.push(m2),
                (Err(me), Err(oe)) => oe == me,
                _ => false,
            }
        };
    assert(mid2 matches Ok(v) && v@ == req.payload@.push(m1).push(m2));
    assert(mid1 matches Ok(v) && v@ == req.payload@.push(m1).push(m2).push(m2));
}

} // verus!
