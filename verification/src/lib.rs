//! Integer-sequence transformations behind a small request/response service:
//! a request counter, six named transformations, and the records the service
//! answers with.

pub mod arith;
pub mod clock;
pub mod counter;
pub mod dispatch;
pub mod parallel;
pub mod service;
pub mod sorting;
pub mod text;
pub mod transform;
