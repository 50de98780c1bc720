use fortitude::context_aware_scorer::{build_classification_query, generate_classification_cache_key};
use fortitude::gap_analyzer::{DetectedGap, GapType};

fn create_test_gap() -> DetectedGap {
    DetectedGap::new(
        GapType::TodoComment,
        "src/main.rs".to_string(),
        42,
        "// TODO: Implement async error handling for web requests".to_string(),
        "Implement proper async error handling for HTTP requests".to_string(),
        90,
    )
    .with_column(10)
    .with_metadata("item_type", "function")
}

#[test]
fn test_classification_query_building() {
    let gap = create_test_gap();

    let query = build_classification_query(&gap);

    assert!(query.contains("Implement proper async error handling"));
    assert!(query.contains("TODO: Implement async error handling"));
    assert!(query.contains("item type: function"));
    assert!(query.contains("source code file"));
}

#[test]
fn classification_query_parts() {
    let gap = create_test_gap();
    assert_eq!(
        build_classification_query(&gap),
        "Implement proper async error handling for HTTP requests // TODO: Implement async error handling for web requests item type: function source code file"
    );
    let bare = DetectedGap::new(GapType::ConfigurationGap, "docs/guide.md".to_string(), 1, "   ".to_string(), "Key".to_string(), 50);
    assert_eq!(build_classification_query(&bare), "Key documentation file");
    let test_file = DetectedGap::new(GapType::TodoComment, "tests/x.rs".to_string(), 1, "c".to_string(), "d".to_string(), 50);
    assert_eq!(build_classification_query(&test_file), "d c test file");
    let other = DetectedGap::new(GapType::TodoComment, "build.rs".to_string(), 1, "".to_string(), "d".to_string(), 50);
    assert_eq!(build_classification_query(&other), "d");
    assert_eq!(gap.get_metadata("item_type"), Some("function".to_string()));
    assert_eq!(gap.get_metadata("missing"), None);
}

#[test]
fn classification_cache_keys() {
    assert_eq!(generate_classification_cache_key(""), "classification_0");
    assert_eq!(generate_classification_cache_key("a"), "classification_97");
    assert_eq!(generate_classification_cache_key("ab"), format!("classification_{}", 97 * 31 + 98));
    let long = "security vulnerability in the authentication layer of the web service";
    let expected = long.chars().fold(0u64, |acc, c| acc.wrapping_mul(31).wrapping_add(c as u64));
    assert_eq!(generate_classification_cache_key(long), format!("classification_{}", expected));
}
