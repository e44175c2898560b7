pub mod builder;
pub mod job_fn;
pub mod laws;
pub mod layer;
pub mod request;
pub mod service;
pub mod source;
pub mod trace;
pub mod worker;
