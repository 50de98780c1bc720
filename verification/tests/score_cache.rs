use fortitude::gap_analyzer::{DetectedGap, GapType};
use fortitude::score_cache::{impact_cache_key, score_cache_key, ExpiringCache};

fn gap(confidence_percent: u8) -> DetectedGap {
    DetectedGap::new(
        GapType::TodoComment,
        "src/lib.rs".to_string(),
        10,
        "// TODO: test".to_string(),
        "test".to_string(),
        confidence_percent,
    )
}

#[test]
fn cache_keys_name_file_line_type_and_confidence() {
    assert_eq!(score_cache_key(&gap(90)), "src/lib.rs:10:todo_comment:0.9");
    assert_eq!(score_cache_key(&gap(100)), "src/lib.rs:10:todo_comment:1");
    assert_eq!(score_cache_key(&gap(5)), "src/lib.rs:10:todo_comment:0.05");
    assert_eq!(impact_cache_key(&gap(85)), "impact:src/lib.rs:10:todo_comment:0.85");
}

#[test]
fn confidence_in_keys_reads_as_the_floating_point_value() {
    for p in 0..=255u8 {
        let expected = format!("src/lib.rs:10:todo_comment:{}", f64::from(p) / 100.0);
        assert_eq!(score_cache_key(&gap(p)), expected);
    }
}

#[test]
fn cached_values_expire() {
    let mut c: ExpiringCache<u32> = ExpiringCache::new();
    assert_eq!(c.get_at("a", 0), None);
    c.insert_at("a".to_string(), 7, 1_000, 2);
    assert_eq!(c.get_at("a", 1_000), Some(&7));
    assert_eq!(c.get_at("a", 2_000_000_999), Some(&7));
    assert_eq!(c.get_at("a", 2_000_001_000), None);
    assert_eq!(c.get_at("b", 1_000), None);
}

#[test]
fn a_later_write_replaces_the_value() {
    let mut c: ExpiringCache<&str> = ExpiringCache::new();
    c.insert_at("k".to_string(), "first", 0, 10);
    c.insert_at("other".to_string(), "x", 0, 10);
    c.insert_at("k".to_string(), "second", 5, 1);
    assert_eq!(c.get_at("k", 6), Some(&"second"));
    assert_eq!(c.get_at("k", 1_000_000_005), None);
    assert_eq!(c.get_at("other", 1_000_000_005), Some(&"x"));
    c.clear();
    assert_eq!(c.get_at("other", 0), None);
}

#[test]
fn expiry_saturates_at_the_last_representable_instant() {
    let mut c: ExpiringCache<u8> = ExpiringCache::new();
    c.insert_at("far".to_string(), 1, i64::MAX - 5, 60);
    assert_eq!(c.get_at("far", i64::MAX - 1), Some(&1));
    assert_eq!(c.get_at("far", i64::MAX), None);
    c.insert_at("zero".to_string(), 2, 100, 0);
    assert_eq!(c.get_at("zero", 99), Some(&2));
    assert_eq!(c.get_at("zero", 100), None);
}
