use rayon::iter::{IntoParallelIterator, ParallelIterator};
use std::sync::Mutex;
use transform_service::counter::RequestCounter;
use transform_service::dispatch::TransformError;
use transform_service::service::{
    build_response, get_memory_usage, get_stats, health_check, health_response, process_data,
    stats_snapshot, transform_request, AppState, ProcessingRequest, RequestRate, VERSION,
};

fn request(operation: &str, data: Vec<i32>) -> ProcessingRequest {
    ProcessingRequest { data, operation: operation.to_string() }
}

#[test]
fn counter_starts_at_zero() {
    assert_eq!(RequestCounter::new().read(), 0);
}

#[test]
fn counter_counts_each_increment() {
    let mut counter = RequestCounter::new();
    counter.increment();
    assert_eq!(counter.read(), 1);
    counter.increment();
    counter.increment();
    assert_eq!(counter.read(), 3);
    assert_eq!(counter.read(), 3);
}

#[test]
fn concurrent_increments_are_all_counted() {
    let shared = Mutex::new(RequestCounter::new());
    (0..10_000u32).into_par_iter().for_each(|_| {
        shared.lock().unwrap().increment();
    });
    assert_eq!(shared.lock().unwrap().read(), 10_000);
}

#[test]
fn concurrent_increments_with_reads_in_between() {
    let shared = Mutex::new(RequestCounter::new());
    (0..2_000u32).into_par_iter().for_each(|_| {
        let seen = shared.lock().unwrap().read();
        shared.lock().unwrap().increment();
        assert!(shared.lock().unwrap().read() > seen);
    });
    assert_eq!(shared.lock().unwrap().read(), 2_000);
}

#[test]
fn new_state_has_seen_no_request() {
    let state = AppState::new();
    assert_eq!(state.request_count.read(), 0);
}

#[test]
fn health_response_fields() {
    let response = health_response(42);
    assert_eq!(response.status, "healthy");
    assert_eq!(response.uptime, 42);
    assert_eq!(response.version, VERSION);
    assert_eq!(health_response(0).uptime, 0);
    assert_eq!(health_response(u64::MAX).uptime, u64::MAX);
}

#[test]
fn version_is_the_package_version() {
    assert_eq!(VERSION, "0.1.0");
}

#[test]
fn health_check_reports_healthy() {
    let state = AppState::new();
    let response = health_check(&state);
    assert_eq!(response.status, "healthy");
    assert_eq!(response.version, VERSION);
    assert!(response.uptime < 60);
}

#[test]
fn health_uptime_does_not_go_back() {
    let state = AppState::new();
    let mut last = health_check(&state).uptime;
    for _ in 0..200 {
        let next = health_check(&state).uptime;
        assert!(next >= last);
        last = next;
    }
}

#[test]
fn build_response_writes_the_message() {
    let response = build_response(vec![1, 2, 3], "sort".to_string(), 3, 0);
    assert_eq!(response.result, vec![1, 2, 3]);
    assert_eq!(response.operation, "sort");
    assert_eq!(response.processing_time_ms, 0);
    assert_eq!(response.message, "Processed 3 items in 0ms");

    let response = build_response(vec![6], "sum".to_string(), 1200, 35);
    assert_eq!(response.message, "Processed 1200 items in 35ms");
    assert_eq!(response.processing_time_ms, 35);

    let response = build_response(vec![], "double".to_string(), 0, 18_446_744_073_709_551_615);
    assert_eq!(response.message, "Processed 0 items in 18446744073709551615ms");
}

#[test]
fn transform_request_answers_a_request() {
    let response = transform_request(request("sort", vec![3, 1, 2])).unwrap();
    assert_eq!(response.result, vec![1, 2, 3]);
    assert_eq!(response.operation, "sort");
    assert_eq!(response.message, format!("Processed 3 items in {}ms", response.processing_time_ms));
}

#[test]
fn transform_request_counts_the_items_of_the_request() {
    let response = transform_request(request("sum", vec![1, 2, 3, 4])).unwrap();
    assert_eq!(response.result, vec![10]);
    assert_eq!(response.operation, "sum");
    assert_eq!(response.message, format!("Processed 4 items in {}ms", response.processing_time_ms));
}

#[test]
fn transform_request_times_a_short_transformation_as_short() {
    let response = transform_request(request("reverse", vec![1, 2, 3])).unwrap();
    assert_eq!(response.result, vec![3, 2, 1]);
    assert!(response.processing_time_ms < 10_000);
}

#[test]
fn transform_request_runs_every_operation() {
    let expected: Vec<(&str, Vec<i32>)> = vec![
        ("sort", vec![1, 2, 3]),
        ("reverse", vec![2, 1, 3]),
        ("double", vec![6, 2, 4]),
        ("square", vec![9, 1, 4]),
        ("sum", vec![6]),
        ("parallel_process", vec![12, 2, 6]),
    ];
    for (name, result) in expected.iter() {
        let response = transform_request(request(name, vec![3, 1, 2])).unwrap();
        assert_eq!(&response.result, result);
        assert_eq!(response.operation, *name);
    }
}

#[test]
fn transform_request_refuses_an_unknown_operation() {
    let outcome = transform_request(request("bogus", vec![1]));
    assert!(matches!(outcome, Err(TransformError::UnknownOperation)));
    let outcome = transform_request(request("", vec![]));
    assert!(matches!(outcome, Err(TransformError::UnknownOperation)));
}

#[test]
fn process_data_counts_and_answers() {
    let mut state = AppState::new();
    let response = process_data(&mut state, request("sort", vec![3, 1, 2])).unwrap();
    assert_eq!(response.result, vec![1, 2, 3]);
    assert_eq!(response.operation, "sort");
    assert_eq!(response.message, format!("Processed 3 items in {}ms", response.processing_time_ms));
    assert_eq!(state.request_count.read(), 1);
    let response = process_data(&mut state, request("parallel_process", vec![1, 2, 3])).unwrap();
    assert_eq!(response.result, vec![2, 6, 12]);
    assert_eq!(state.request_count.read(), 2);
}

#[test]
fn process_data_counts_a_refused_request() {
    let mut state = AppState::new();
    let outcome = process_data(&mut state, request("bogus", vec![1]));
    assert!(matches!(outcome, Err(TransformError::UnknownOperation)));
    assert_eq!(state.request_count.read(), 1);
    assert_eq!(get_stats(&state).requests_processed, 1);
}

#[test]
fn rate_is_zero_without_uptime() {
    let snapshot = stats_snapshot(17, 0, 4, 16);
    assert_eq!(snapshot.requests_per_second, RequestRate::Zero);
    assert_eq!(snapshot.requests_processed, 17);
    assert_eq!(snapshot.uptime_seconds, 0);
    let snapshot = stats_snapshot(u64::MAX, 0, 1, 0);
    assert_eq!(snapshot.requests_per_second, RequestRate::Zero);
}

#[test]
fn rate_divides_requests_by_uptime() {
    let snapshot = stats_snapshot(10, 4, 8, 24);
    assert_eq!(snapshot.requests_per_second, RequestRate::PerSecond { requests: 10, seconds: 4 });
    assert_eq!(snapshot.requests_processed, 10);
    assert_eq!(snapshot.uptime_seconds, 4);
    assert_eq!(snapshot.cpu_core_count, 8);
    assert_eq!(snapshot.memory_usage_estimate, 24);
    let snapshot = stats_snapshot(0, 1, 1, 0);
    assert_eq!(snapshot.requests_per_second, RequestRate::PerSecond { requests: 0, seconds: 1 });
}

#[test]
fn memory_figure_is_the_size_of_the_state() {
    assert_eq!(get_memory_usage(), std::mem::size_of::<AppState>() as u64);
    assert!(get_memory_usage() > 0);
}

#[test]
fn stats_report_the_state() {
    let mut state = AppState::new();
    state.request_count.increment();
    state.request_count.increment();
    let snapshot = get_stats(&state);
    assert_eq!(snapshot.requests_processed, 2);
    assert_eq!(snapshot.memory_usage_estimate, get_memory_usage());
    assert_eq!(snapshot.cpu_core_count, num_cpus::get());
    if snapshot.uptime_seconds == 0 {
        assert_eq!(snapshot.requests_per_second, RequestRate::Zero);
    } else {
        assert_eq!(
            snapshot.requests_per_second,
            RequestRate::PerSecond { requests: 2, seconds: snapshot.uptime_seconds }
        );
    }
    assert_eq!(state.request_count.read(), 2);
}
