use apalis_core::builder::WorkerBuilder;
use apalis_core::builder::WorkerFactory;
use apalis_core::builder::WorkerFactoryFn;
use apalis_core::job_fn::job_fn;
use apalis_core::layer::Identity;
use apalis_core::request::JobRequest;
use apalis_core::service::Service;
use apalis_core::source::Source;
use apalis_core::trace::EchoService;
use apalis_core::trace::TraceLayer;
use apalis_core::worker::ReadyWorker;
use apalis_core::worker::WorkerRef;

/// A scripted source: hands out a fixed list of poll outcomes in order.
struct ScriptSource {
    items: Vec<Result<Option<JobRequest<String>>, String>>,
}

impl Source<String> for ScriptSource {
    type Error = String;

    fn poll_next(&mut self) -> Result<Option<JobRequest<String>>, String> {
        if self.items.is_empty() {
            Ok(None)
        } else {
            self.items.remove(0)
        }
    }
}

/// A source of trace jobs that never has anything ready.
struct IdleTraceSource;

impl Source<Vec<u64>> for IdleTraceSource {
    type Error = String;

    fn poll_next(&mut self) -> Result<Option<JobRequest<Vec<u64>>>, String> {
        Ok(None)
    }
}

/// A source of integer jobs that never has anything ready.
struct IdleU64Source;

impl Source<u64> for IdleU64Source {
    type Error = String;

    fn poll_next(&mut self) -> Result<Option<JobRequest<u64>>, String> {
        Ok(None)
    }
}

/// A source that yields one request carrying the name it was created with.
struct NamedSource {
    name: String,
    used: bool,
}

impl Source<String> for NamedSource {
    type Error = String;

    fn poll_next(&mut self) -> Result<Option<JobRequest<String>>, String> {
        if self.used {
            Ok(None)
        } else {
            self.used = true;
            Ok(Some(JobRequest::new(self.name.clone())))
        }
    }
}

#[test]
fn fresh_request_has_no_attempts() {
    let req = JobRequest::new("job".to_string());
    assert_eq!(req.payload, "job");
    assert_eq!(req.attempts, 0);
}

#[test]
fn built_worker_keeps_name_and_handles_jobs() {
    let worker = WorkerBuilder::new("emailer".to_string())
        .stream(ScriptSource { items: vec![] })
        .build(job_fn(|req: JobRequest<String>| -> Result<String, String> { Ok(req.payload) }));
    assert_eq!(worker.name, "emailer");
    let mut svc = worker.service;
    let out = svc.call(JobRequest::new("hello".to_string()));
    assert_eq!(out, Ok("hello".to_string()));
}

#[test]
fn with_stream_hands_the_worker_name_to_the_source() {
    let worker = WorkerBuilder::new("w7".to_string())
        .with_stream(|wr: WorkerRef| NamedSource { name: wr.name, used: false })
        .build(job_fn(|req: JobRequest<String>| -> Result<String, String> { Ok(req.payload) }));
    assert_eq!(worker.name, "w7");
    let mut src = worker.stream;
    let polled = src.poll_next();
    assert_eq!(polled.unwrap().unwrap().payload, "w7");
}

#[test]
fn nothing_available_is_observed_before_the_request() {
    let worker = WorkerBuilder::new("poller".to_string())
        .stream(ScriptSource {
            items: vec![Ok(None), Ok(Some(JobRequest::new("X".to_string())))],
        })
        .build(job_fn(|req: JobRequest<String>| -> Result<String, String> {
            Ok(format!("{}-handled", req.payload))
        }));
    let ReadyWorker { name: _, stream: mut src, service: mut svc } = worker;
    let first = src.poll_next();
    assert!(matches!(first, Ok(None)));
    let second = src.poll_next();
    let req = second.unwrap().expect("a request must be ready on the second poll");
    assert_eq!(req.payload, "X");
    let out = svc.call(req);
    assert_eq!(out, Ok("X-handled".to_string()));
}

#[test]
fn build_fn_and_build_with_adapter_agree() {
    let f = |req: JobRequest<u64>| -> Result<u64, String> { Ok(req.payload * 2) };
    let w1 = WorkerBuilder::new("a".to_string()).stream(IdleU64Source).build_fn(f);
    let w2 = WorkerBuilder::new("a".to_string()).stream(IdleU64Source).build(job_fn(f));
    let mut s1 = w1.service;
    let mut s2 = w2.service;
    let o1 = s1.call(JobRequest::new(21u64));
    let o2 = s2.call(JobRequest::new(21u64));
    assert_eq!(o1, Ok(42));
    assert_eq!(o1, o2);
}

#[test]
fn passthrough_decorators_leave_the_result_unchanged() {
    let f = |req: JobRequest<u64>| -> Result<u64, String> { Ok(req.payload + 1) };
    let plain = WorkerBuilder::new("p".to_string()).stream(IdleU64Source).build(job_fn(f));
    let layered = WorkerBuilder::new("p".to_string())
        .stream(IdleU64Source)
        .layer(Identity)
        .layer(Identity)
        .build(job_fn(f));
    let mut s1 = plain.service;
    let mut s2 = layered.service;
    assert_eq!(s1.call(JobRequest::new(9u64)), Ok(10));
    assert_eq!(s2.call(JobRequest::new(9u64)), Ok(10));
}

#[test]
fn first_added_decorator_runs_first_and_unwinds_last() {
    let worker = WorkerBuilder::new("traced".to_string())
        .stream(IdleTraceSource)
        .layer(TraceLayer { marker: 1 })
        .layer(TraceLayer { marker: 2 })
        .build(EchoService);
    let mut svc = worker.service;
    let out = svc.call(JobRequest::new(vec![]));
    assert_eq!(out, Ok(vec![1, 2, 2, 1]));
}

#[test]
fn middleware_adds_decorators_through_the_chain_builder() {
    let worker = WorkerBuilder::new("mw".to_string())
        .stream(IdleTraceSource)
        .middleware(|chain| chain.layer(TraceLayer { marker: 5 }))
        .build(EchoService);
    let mut svc = worker.service;
    let out = svc.call(JobRequest::new(vec![7]));
    assert_eq!(out, Ok(vec![7, 5, 5]));
}

#[test]
fn decorator_order_is_kept_across_middleware_and_layer_calls() {
    let worker = WorkerBuilder::new("mixed".to_string())
        .stream(IdleTraceSource)
        .middleware(|chain| chain.layer(TraceLayer { marker: 1 }).layer(TraceLayer { marker: 2 }))
        .layer(TraceLayer { marker: 3 })
        .build(EchoService);
    let mut svc = worker.service;
    let out = svc.call(JobRequest::new(vec![]));
    assert_eq!(out, Ok(vec![1, 2, 3, 3, 2, 1]));
}

#[test]
fn handler_errors_surface_as_typed_values() {
    let worker = WorkerBuilder::new("failing".to_string())
        .stream(ScriptSource { items: vec![] })
        .build(job_fn(|_req: JobRequest<String>| -> Result<String, String> {
            Err("boom".to_string())
        }));
    let mut svc = worker.service;
    let out = svc.call(JobRequest::new("anything".to_string()));
    assert_eq!(out, Err("boom".to_string()));
}

#[test]
fn source_errors_surface_as_typed_values() {
    let worker = WorkerBuilder::new("downstream".to_string())
        .stream(ScriptSource { items: vec![Err("queue down".to_string())] })
        .build(job_fn(|req: JobRequest<String>| -> Result<String, String> { Ok(req.payload) }));
    let mut src = worker.stream;
    match src.poll_next() {
        Err(e) => assert_eq!(e, "queue down"),
        Ok(_) => panic!("the scripted failure must be handed out first"),
    }
    assert!(matches!(src.poll_next(), Ok(None)));
}

#[test]
fn errors_pass_through_trace_decorators_unchanged() {
    let worker = WorkerBuilder::new("traced-fail".to_string())
        .stream(IdleTraceSource)
        .layer(TraceLayer { marker: 3 })
        .build(job_fn(|_req: JobRequest<Vec<u64>>| -> Result<Vec<u64>, ()> { Err(()) }));
    let mut svc = worker.service;
    let out = svc.call(JobRequest::new(vec![]));
    assert_eq!(out, Err(()));
}
