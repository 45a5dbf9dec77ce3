//! The service's records and the three things it answers: a health probe, a
//! processing request, and a statistics report.

use std::time::Instant;
use vstd::prelude::*;
use vstd::string::StringExecFns;
use crate::counter::RequestCounter;
use crate::dispatch::{apply, Operation, TransformError};
use crate::text::{append_decimal, decimal};

verus! {

/// The version the health probe reports.
pub const VERSION: &'static str = "0.1.0";

/// A request to transform a sequence: the data and the name of the operation.
/// The name is checked when the request is processed, not before.
#[derive(Debug)]
pub struct ProcessingRequest {
    pub data: Vec<i32>,
    pub operation: String,
}

/// The answer to a processing request.
#[derive(Debug)]
pub struct ProcessingResponse {
    /// The transformed sequence.
    pub result: Vec<i32>,
    /// The operation name, as the request gave it.
    pub operation: String,
    /// How long the transformation took, in whole milliseconds.
    pub processing_time_ms: u64,
    /// A sentence for the reader: how many items were processed, and how fast.
    pub message: String,
}

/// The answer to a health probe.
#[derive(Debug)]
pub struct HealthResponse {
    pub status: String,
    /// Whole seconds since the service started.
    pub uptime: u64,
    pub version: String,
}

/// What the service keeps for as long as it runs: the request count and the
/// moment it started. The start time is set once and never changed.
#[derive(Debug)]
pub struct AppState {
    pub request_count: RequestCounter,
    pub start_time: Instant,
}

/// Requests per second, kept exact: either there is no whole second to
/// divide by yet and the rate is zero, or it is `requests / seconds`.
#[derive(Clone, Copy, Debug, PartialEq, Eq, Structural)]
pub enum RequestRate {
    /// No whole second has passed. The rate is reported as zero and nothing
    /// is divided.
    Zero,
    /// `requests` divided by `seconds`, with `seconds` above zero.
    PerSecond { requests: u64, seconds: u64 },
}

/// The statistics report. It is computed afresh for every report and keeps
/// no link to the state it was read from.
#[derive(Clone, Copy, Debug, PartialEq, Eq, Structural)]
pub struct StatsSnapshot {
    pub requests_processed: u64,
    pub uptime_seconds: u64,
    pub requests_per_second: RequestRate,
    /// The number of logical processors the process can see.
    pub cpu_core_count: usize,
    /// A placeholder figure: see `get_memory_usage`.
    pub memory_usage_estimate: u64,
}

/// The rate for a request count and an uptime in whole seconds.
pub open spec fn request_rate(requests: u64, uptime_seconds: u64) -> RequestRate {
    if uptime_seconds > 0 {
        RequestRate::PerSecond { requests, seconds: uptime_seconds }
    } else {
        RequestRate::Zero
    }
}

/// With no whole second of uptime the rate is zero, whatever the request
/// count: nothing is divided by zero.
pub proof fn lemma_rate_without_uptime(requests: u64)
    ensures
        request_rate(requests, 0) == RequestRate::Zero,
{
}

/// The sentence a response carries: `Processed <items> items in <millis>ms`,
/// both numbers in decimal.
pub open spec fn message_text(items: nat, millis: nat) -> Seq<char> {
    "Processed "@ + decimal(items) + " items in "@ + decimal(millis) + "ms"@
}

impl AppState {
    /// The state of a service that starts now and has seen no request.
    pub fn new() -> (state: Self)
        ensures
            state.request_count@ == 0,
    {
        AppState { request_count: RequestCounter::new(), start_time: Instant::now() }
    }
}

/// The health answer for a service that has been up for `uptime` seconds.
pub fn health_response(uptime: u64) -> (response: HealthResponse)
    ensures
        response.status@ == "healthy"@,
        response.uptime == uptime,
        response.version@ == VERSION@,
{
    HealthResponse {
        status: String::from_str("healthy"),
        uptime,
        version: String::from_str(VERSION),
    }
}

/// Answers a health probe: the service is healthy, and has been up for as
/// many whole seconds as the clock says have passed since it started.
pub fn health_check(state: &AppState) -> (response: HealthResponse)
    ensures
        response.status@ == "healthy"@,
        response.version@ == VERSION@,
{
    let uptime = state.start_time.elapsed().as_secs();
    health_response(uptime)
}

/// Puts a response together from a finished transformation.
///
/// `items` is the number of elements the request held and `elapsed_ms` the
/// time the transformation took.
pub fn build_response(result: Vec<i32>, operation: String, items: usize, elapsed_ms: u64) -> (response:
    ProcessingResponse)
    ensures
        response.result@ == result@,
        response.operation@ == operation@,
        response.processing_time_ms == elapsed_ms,
        response.message@ == message_text(items as nat, elapsed_ms as nat),
{
    let mut message = String::from_str("Processed ");
    append_decimal(&mut message, items as u64);
    message.append(" items in ");
    append_decimal(&mut message, elapsed_ms);
    message.append("ms");
    ProcessingResponse { result, operation, processing_time_ms: elapsed_ms, message }
}

/// The recorded outcome of a request, as far as the request decides it:
/// whether it is answered at all, with which result, under which name and
/// with which sentence. Only the measured time is left to the clock.
pub open spec fn answers(
    payload: ProcessingRequest,
    outcome: Result<ProcessingResponse, TransformError>,
) -> bool {
    match Operation::recognized(payload.operation@) {
        Some(op) => {
            &&& outcome is Ok
            &&& op.produces(payload.data@, outcome->Ok_0.result@)
            &&& outcome->Ok_0.result@.len() == op.result_len(payload.data@.len())
            &&& outcome->Ok_0.operation@ == payload.operation@
            &&& outcome->Ok_0.message@ == message_text(
                payload.data@.len(),
                outcome->Ok_0.processing_time_ms as nat,
            )
        },
        None => outcome == Err::<ProcessingResponse, TransformError>(
            TransformError::UnknownOperation,
        ),
    }
}

/// Applies the operation a request names to its data, times it, and puts
/// the response together.
///
/// The clock is read immediately before and immediately after the
/// transformation, so the time covers the transformation and nothing else. A
/// transformation that takes less than a millisecond is reported as taking 0.
///
/// An unrecognized operation name is refused with `UnknownOperation`; the
/// service answers such a request as a client error.
pub fn transform_request(payload: ProcessingRequest) -> (outcome: Result<
    ProcessingResponse,
    TransformError,
>)
    ensures
        answers(payload, outcome),
{
    let items = payload.data.len();
    let started = Instant::now();
    match apply(payload.operation.as_str(), &payload.data) {
        Ok(result) => {
            let elapsed_ms = started.elapsed().as_millis() as u64;
            Ok(build_response(result, payload.operation, items, elapsed_ms))
        },
        Err(error) => Err(error),
    }
}

/// Processes one request from start to end: counts it, then transforms it.
///
/// The request is counted exactly once, and before anything else: a request
/// that is refused for its operation name has been counted all the same. The
/// counter is a `u64` and must have room for one more.
///
/// Where the state is shared between tasks, the caller that holds the lock
/// should let go of it between the two steps, so that a long transformation
/// keeps nobody else from being counted: it calls `increment` on the counter
/// under the lock, and `transform_request` without it.
pub fn process_data(state: &mut AppState, payload: ProcessingRequest) -> (outcome: Result<
    ProcessingResponse,
    TransformError,
>)
    requires
        old(state).request_count@ < u64::MAX,
    ensures
        final(state).request_count@ == old(state).request_count@ + 1,
        final(state).start_time == old(state).start_time,
        answers(payload, outcome),
{
    state.request_count.increment();
    transform_request(payload)
}

/// The report for the given readings.
pub fn stats_snapshot(requests: u64, uptime_seconds: u64, cores: usize, memory: u64) -> (snapshot:
    StatsSnapshot)
    ensures
        snapshot == (StatsSnapshot {
            requests_processed: requests,
            uptime_seconds,
            requests_per_second: request_rate(requests, uptime_seconds),
            cpu_core_count: cores,
            memory_usage_estimate: memory,
        }),
{
    let requests_per_second = if uptime_seconds > 0 {
        RequestRate::PerSecond { requests, seconds: uptime_seconds }
    } else {
        RequestRate::Zero
    };
    StatsSnapshot {
        requests_processed: requests,
        uptime_seconds,
        requests_per_second,
        cpu_core_count: cores,
        memory_usage_estimate: memory,
    }
}

/// `num_cpus::get`: the number of logical processors available to the
/// process. The number depends on the machine and on how the process is
/// confined, so nothing is claimed about it.
pub assume_specification[ num_cpus::get ]() -> (cores: usize)
;

/// Reports the statistics: the requests counted so far, the uptime in whole
/// seconds, the rate that follows from the two, the processor count, and the
/// memory figure. Reading changes nothing.
pub fn get_stats(state: &AppState) -> (snapshot: StatsSnapshot)
    ensures
        snapshot.requests_processed == state.request_count@,
        snapshot.requests_per_second == request_rate(
            snapshot.requests_processed,
            snapshot.uptime_seconds,
        ),
        snapshot.memory_usage_estimate as nat == vstd::layout::size_of::<AppState>(),
{
    let requests = state.request_count.read();
    let uptime = state.start_time.elapsed().as_secs();
    stats_snapshot(requests, uptime, num_cpus::get(), get_memory_usage())
}

/// The memory figure of the statistics report: the size in bytes of the
/// state record itself. It is a fixed small number, not a measurement of
/// what the process has allocated.
pub fn get_memory_usage() -> (bytes: u64)
    ensures
        bytes as nat == vstd::layout::size_of::<AppState>(),
{
    core::mem::size_of::<AppState>() as u64
}

} // verus!
