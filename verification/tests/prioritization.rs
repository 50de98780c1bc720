use fortitude::gap_analyzer::{DetectedGap, GapType};
use fortitude::prioritization::{check_scoring_limits, context_location_tenths, item_type_tenths, recency_factor_tenths};

#[test]
fn recency_buckets() {
    assert_eq!(recency_factor_tenths(10), 10);
    assert_eq!(recency_factor_tenths(9), 10);
    assert_eq!(recency_factor_tenths(8), 8);
    assert_eq!(recency_factor_tenths(7), 8);
    assert_eq!(recency_factor_tenths(6), 6);
    assert_eq!(recency_factor_tenths(5), 6);
    assert_eq!(recency_factor_tenths(4), 4);
    assert_eq!(recency_factor_tenths(3), 4);
    assert_eq!(recency_factor_tenths(2), 2);
    assert_eq!(recency_factor_tenths(0), 2);
    assert_eq!(recency_factor_tenths(11), 2);
}

#[test]
fn context_bonuses() {
    assert_eq!(context_location_tenths("src/lib.rs"), 20);
    assert_eq!(context_location_tenths("src/main.rs"), 20);
    assert_eq!(context_location_tenths("src/proactive/queue.rs"), 10);
    assert_eq!(context_location_tenths("tests/queue.rs"), 5);
    assert_eq!(context_location_tenths("README.md"), 0);

    let gap = DetectedGap::new(GapType::TodoComment, "src/main.rs".to_string(), 42, "// TODO".to_string(), "do".to_string(), 90);
    assert_eq!(item_type_tenths(&gap), 0);
    assert_eq!(item_type_tenths(&gap.clone().with_metadata("item_type", "function")), 10);
    assert_eq!(item_type_tenths(&gap.clone().with_metadata("item_type", "struct")), 15);
    assert_eq!(item_type_tenths(&gap.clone().with_metadata("item_type", "module")), 20);
    assert_eq!(item_type_tenths(&gap.with_metadata("item_type", "trait")), 0);
}

#[test]
fn scoring_limits() {
    assert!(check_scoring_limits(50, 100).is_ok());
    assert_eq!(check_scoring_limits(0, 100).unwrap_err(), "max_batch_size must be greater than 0");
    assert_eq!(check_scoring_limits(0, 0).unwrap_err(), "max_batch_size must be greater than 0");
    assert_eq!(check_scoring_limits(25, 0).unwrap_err(), "max_scoring_time_ms must be greater than 0");
}
