use stress_relay::stats::{
    error_label, status_label, timestamp_from, Outcome, TestResult, NO_SAMPLE,
    UNBOUNDED_THROUGHPUT,
};

fn answer(status: u16, elapsed_micros: u64) -> Outcome {
    Outcome::Response { status, elapsed_micros }
}

#[test]
fn empty_run_reports_zero_rates() {
    let result = TestResult::from_outcomes(&Vec::new(), 1_000, "run".to_string(), 7);
    assert_eq!(result.total_requests, 0);
    assert_eq!(result.successful_requests, 0);
    assert_eq!(result.failed_requests, 0);
    assert_eq!(result.throughput, 0);
    assert_eq!(result.avg_response_time, 0);
    assert_eq!(result.min_response_time, 0);
    assert_eq!(result.max_response_time, 0);
    assert_eq!(result.duration, 1_000);
    assert_eq!(result.test_id, "run");
    assert_eq!(result.timestamp, 7);
    assert!(result.status_codes.is_empty());
}

#[test]
fn eight_quick_answers() {
    let outcomes = vec![answer(200, 10_000); 8];
    let result = TestResult::from_outcomes(&outcomes, 20_000, "run".to_string(), 0);
    assert_eq!(result.total_requests, 8);
    assert_eq!(result.successful_requests, 8);
    assert_eq!(result.failed_requests, 0);
    assert_eq!(result.transport_errors, 0);
    assert_eq!(result.min_response_time, 10_000);
    assert_eq!(result.max_response_time, 10_000);
    assert_eq!(result.avg_response_time, 10_000);
    assert_eq!(result.total_response_time, 80_000);
    assert_eq!(result.status_codes.get(&200), Some(&8));
    assert_eq!(result.status_codes.len(), 1);
}

#[test]
fn every_request_is_successful_or_failed() {
    let outcomes = vec![
        answer(200, 5),
        answer(404, 9),
        Outcome::TransportError,
        answer(500, 2),
        answer(204, 7),
        Outcome::TransportError,
        answer(301, 4),
    ];
    let result = TestResult::from_outcomes(&outcomes, 100, "run".to_string(), 0);
    assert_eq!(result.total_requests, 7);
    assert_eq!(result.successful_requests, 2);
    assert_eq!(result.failed_requests, 5);
    assert_eq!(result.transport_errors, 2);
    assert_eq!(
        result.successful_requests + result.failed_requests,
        result.total_requests
    );
    assert_eq!(result.status_codes.get(&200), Some(&1));
    assert_eq!(result.status_codes.get(&404), Some(&1));
    assert_eq!(result.status_codes.get(&500), Some(&1));
    assert_eq!(result.status_codes.get(&204), Some(&1));
    assert_eq!(result.status_codes.get(&301), Some(&1));
    assert_eq!(result.status_codes.len(), 5);
    assert_eq!(result.min_response_time, 2);
    assert_eq!(result.max_response_time, 9);
    assert_eq!(result.total_response_time, 27);
}

#[test]
fn success_is_the_2xx_range() {
    let outcomes = vec![answer(199, 1), answer(200, 1), answer(299, 1), answer(300, 1)];
    let result = TestResult::from_outcomes(&outcomes, 100, "run".to_string(), 0);
    assert_eq!(result.successful_requests, 2);
    assert_eq!(result.failed_requests, 2);
}

#[test]
fn unreachable_host_leaves_min_at_zero() {
    let outcomes = vec![Outcome::TransportError; 5];
    let result = TestResult::from_outcomes(&outcomes, 3_000_000, "run".to_string(), 0);
    assert_eq!(result.total_requests, 5);
    assert_eq!(result.failed_requests, 5);
    assert_eq!(result.transport_errors, 5);
    assert_eq!(result.min_response_time, 0);
    assert_ne!(result.min_response_time, NO_SAMPLE);
    assert_eq!(result.max_response_time, 0);
    assert_eq!(result.avg_response_time, 0);
    assert!(result.status_codes.is_empty());
}

#[test]
fn failed_answers_are_still_timed() {
    let outcomes = vec![answer(500, 7)];
    let result = TestResult::from_outcomes(&outcomes, 100, "run".to_string(), 0);
    assert_eq!(result.failed_requests, 1);
    assert_eq!(result.min_response_time, 7);
}

#[test]
fn average_is_over_all_requests() {
    let outcomes = vec![answer(200, 10), Outcome::TransportError];
    let result = TestResult::from_outcomes(&outcomes, 100, "run".to_string(), 0);
    assert_eq!(result.avg_response_time, 5);
}

#[test]
fn average_rounds_down() {
    let outcomes = vec![answer(200, 3), answer(200, 4)];
    let result = TestResult::from_outcomes(&outcomes, 100, "run".to_string(), 0);
    assert_eq!(result.avg_response_time, 3);
}

#[test]
fn throughput_is_in_thousandths_per_second() {
    let outcomes = vec![answer(200, 10); 8];
    let result = TestResult::from_outcomes(&outcomes, 2_000_000, "run".to_string(), 0);
    assert_eq!(result.throughput, 4_000);
    let slow = TestResult::from_outcomes(&vec![answer(200, 10)], 3_000_000, "run".to_string(), 0);
    assert_eq!(slow.throughput, 333);
}

#[test]
fn no_elapsed_time_gives_unbounded_throughput() {
    let result = TestResult::from_outcomes(&vec![answer(200, 0)], 0, "run".to_string(), 0);
    assert_eq!(result.throughput, UNBOUNDED_THROUGHPUT);
    assert_eq!(result.avg_response_time, 0);
    assert_eq!(result.min_response_time, 0);
}

#[test]
fn recording_step_by_step() {
    let mut result = TestResult::new("id".to_string(), 42);
    assert_eq!(result.min_response_time, NO_SAMPLE);
    assert_eq!(result.total_requests, 0);
    result.record(answer(200, 30));
    assert_eq!(result.total_requests, 1);
    assert_eq!(result.min_response_time, 30);
    assert_eq!(result.max_response_time, 30);
    result.record(answer(200, 10));
    result.record(answer(200, 20));
    assert_eq!(result.min_response_time, 10);
    assert_eq!(result.max_response_time, 30);
    assert_eq!(result.total_response_time, 60);
    assert_eq!(result.status_codes.get(&200), Some(&3));
    result.record(Outcome::TransportError);
    assert_eq!(result.total_requests, 4);
    assert_eq!(result.total_response_time, 60);
    result.finalize(1_000_000);
    assert_eq!(result.avg_response_time, 15);
    assert_eq!(result.throughput, 4_000);
    assert_eq!(result.duration, 1_000_000);
    assert_eq!(result.min_response_time, 10);
}

#[test]
fn longest_possible_answers_do_not_overflow() {
    let outcomes = vec![answer(200, u64::MAX); 3];
    let result = TestResult::from_outcomes(&outcomes, 1, "run".to_string(), 0);
    assert_eq!(result.total_response_time, 3 * (u64::MAX as u128));
    assert_eq!(result.avg_response_time, u64::MAX);
    assert_eq!(result.min_response_time, u64::MAX);
    assert_eq!(result.throughput, 3_000_000_000);
}

#[test]
fn default_result_is_empty_with_a_fresh_identity() {
    let a = TestResult::default();
    let b = TestResult::default();
    assert_eq!(a.total_requests, 0);
    assert_eq!(a.successful_requests, 0);
    assert_eq!(a.failed_requests, 0);
    assert_eq!(a.min_response_time, NO_SAMPLE);
    assert_eq!(a.max_response_time, 0);
    assert_eq!(a.throughput, 0);
    assert!(a.status_codes.is_empty());
    assert_eq!(a.test_id.chars().count(), 36);
    assert_eq!(a.test_id.chars().filter(|c| *c == '-').count(), 4);
    assert_ne!(a.test_id, b.test_id);
    assert!(a.timestamp > 1_600_000_000);
    assert!(a.timestamp < 100_000_000_000);
}

#[test]
fn timestamps_read_signed_seconds_as_unsigned() {
    assert_eq!(timestamp_from(0), 0);
    assert_eq!(timestamp_from(1_700_000_000), 1_700_000_000);
    assert_eq!(timestamp_from(i64::MAX), i64::MAX as u64);
    assert_eq!(timestamp_from(-1), u64::MAX);
    assert_eq!(timestamp_from(i64::MIN), 1u64 << 63);
}

#[test]
fn labels_of_the_outcomes() {
    assert_eq!(status_label(0), "0");
    assert_eq!(status_label(7), "7");
    assert_eq!(status_label(200), "200");
    assert_eq!(status_label(404), "404");
    assert_eq!(status_label(1000), "1000");
    assert_eq!(status_label(u16::MAX), "65535");
    assert_eq!(error_label(), "error");
    for status in [0u16, 9, 10, 99, 100, 503, 9999, 10000, 65535] {
        assert_eq!(status_label(status), status.to_string());
    }
}
