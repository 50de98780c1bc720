use fortitude::notification_system::NotificationSystemError;
use fortitude::notification_testing_harness::{
    concurrent_notification_text, latency_failure, latency_summary_ms, sequential_notification_text,
    custom_pattern_failure, custom_pattern_step, delivery_counts, MockRateLimiter, TestHarnessError,
};

#[test]
fn mock_rate_limiter_token_bucket() {
    let mut l = MockRateLimiter::new_at(2, 0);
    assert!(l.can_proceed(0, 1));
    assert!(l.can_proceed(0, 2));
    assert!(!l.can_proceed(0, 3));
    assert_eq!(l.last_refill_nanos, 0);
    // One token accrued.
    assert!(l.can_proceed(1, 500_000_000));
    assert_eq!(l.last_refill_nanos, 500_000_000);
    assert_eq!(l.tokens, 0);
    // Never beyond the maximum.
    l.refill_tokens(10, 9);
    assert_eq!(l.tokens, 2);
}

#[test]
fn custom_patterns() {
    let pattern = vec![true, false];
    assert_eq!(custom_pattern_step(&pattern, 0), (true, 0, 1));
    assert_eq!(custom_pattern_step(&pattern, 1), (false, 1, 2));
    assert_eq!(custom_pattern_step(&pattern, 2), (true, 0, 3));
    assert_eq!(
        custom_pattern_failure("mock_cli".to_string(), 1),
        NotificationSystemError::ChannelDeliveryFailed {
            channel: "mock_cli".to_string(),
            message: "Custom pattern failure at index 1".to_string(),
            retry_count: 0
        }
    );
}

#[test]
fn delivery_stats() {
    assert_eq!(delivery_counts(&vec![true, false, true]), (3, 2, 1));
    assert_eq!(delivery_counts(&vec![]), (0, 0, 0));
    let e = TestHarnessError::StressTestFailed { reason: "r".to_string() };
    assert_eq!(e.clone(), e);
}

#[test]
fn scenario_latency_summary() {
    assert_eq!(latency_summary_ms(&vec![]), (0, 0, 0));
    assert_eq!(latency_summary_ms(&vec![1_500_000, 3_499_999, 10_000_000]), (4, 10, 1));
    assert_eq!(latency_summary_ms(&vec![u64::MAX, u64::MAX]), (u64::MAX / 1_000_000, u64::MAX / 1_000_000, u64::MAX / 1_000_000));
    assert_eq!(latency_failure(12, 10), Some("Max latency 12ms above expected 10ms".to_string()));
    assert_eq!(latency_failure(10, 10), None);
}

#[test]
fn scenario_notification_texts() {
    assert_eq!(
        sequential_notification_text("burst", 3),
        ("Test Notification 3".to_string(), "Scenario: burst - Message 3".to_string())
    );
    assert_eq!(
        concurrent_notification_text("burst", 2, 7),
        ("Concurrent Test 2-7".to_string(), "Scenario: burst - Sender 2 Message 7".to_string())
    );
}
