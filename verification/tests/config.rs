use fortitude::comprehensive_config::{
    check_conflicting_settings,
    CachingConfig, NotificationRateLimiting, NotificationRule, NotificationThrottling,
    ResearchIntegrationConfig, ResourceLimitsConfig,
};
use fortitude::config::{
    validate_performance_limits, validate_priority_config, validate_regex_patterns, ConfigurationError, ExclusionRules,
    PerformanceLimits, ValidationRules,
};

#[test]
fn exclusion_rules_keywords() {
    let rules = ExclusionRules::default();
    assert_eq!(rules.non_actionable_keyword("Maybe implement this feature"), Some(0));
    assert_eq!(rules.non_actionable_keyword("Do this SOMEDAY"), Some(2));
    assert_eq!(rules.non_actionable_keyword("Fix security vulnerability"), None);
    assert_eq!(rules.exclude_file_paths, vec!["target/".to_string(), "tests/fixtures/".to_string()]);
    assert!(!rules.excludes_gap_type("TodoComment"));
    let mut custom = rules.clone();
    custom.exclude_gap_types.push("TodoComment".to_string());
    assert!(custom.excludes_gap_type("TodoComment"));
}

#[test]
fn validation_rules_evaluate() {
    let rules = ValidationRules::default();
    let ok = rules.evaluate("// TODO: x", 3, true);
    assert!(ok.context_length_ok && ok.line_number_ok && ok.file_existence_ok);
    let bad = rules.evaluate("abc", 0, false);
    assert!(!bad.context_length_ok && !bad.line_number_ok && !bad.file_existence_ok);
    let relaxed = ValidationRules { require_valid_line_numbers: false, validate_file_existence: false, ..rules };
    let r = relaxed.evaluate("abcde", 0, false);
    assert!(r.context_length_ok && r.line_number_ok && r.file_existence_ok);
}

#[test]
fn range_validation() {
    assert!(NotificationThrottling::default().validate().is_ok());
    assert!(NotificationRateLimiting::default().validate().is_ok());
    assert!(ResourceLimitsConfig::default().validate().is_ok());
    assert!(CachingConfig::default().validate().is_ok());
    assert!(NotificationRule::default().validate().is_ok());
    let limits = ResourceLimitsConfig { max_memory_mb: 50, max_cpu_percent: 101, max_disk_mb: 100, max_network_mbps: 1 };
    assert_eq!(limits.validate().unwrap_err(), vec!["max_memory_mb".to_string(), "max_cpu_percent".to_string()]);
    let rule = NotificationRule { name: String::new(), priority: 11, ..NotificationRule::default() };
    assert_eq!(rule.validate().unwrap_err(), vec!["name".to_string(), "priority".to_string()]);
    let throttling = NotificationThrottling { min_interval_seconds: 0, enable_deduplication: false, deduplication_window_seconds: 59 };
    assert_eq!(throttling.validate().unwrap_err().len(), 2);
    let rate = NotificationRateLimiting { max_per_hour: 1000, max_per_day: 10001, enable_burst_protection: false, burst_threshold: 100 };
    assert_eq!(rate.validate().unwrap_err(), vec!["max_per_day".to_string()]);
    let cache = CachingConfig { ttl_seconds: 86401, ..CachingConfig::default() };
    assert_eq!(cache.validate().unwrap_err(), vec!["ttl_seconds".to_string()]);
    assert_eq!(NotificationRule::default().name, "Default Rule");
    assert!(ResearchIntegrationConfig::default().enable_vector_integration);
}

fn limits() -> PerformanceLimits {
    PerformanceLimits {
        max_file_size_bytes: 1,
        analysis_timeout_ms: 1,
        max_total_time_ms: 1,
        max_analysis_time_ms: 1,
        max_memory_per_analysis_bytes: 1,
    }
}

#[test]
fn performance_limits_must_be_positive() {
    assert_eq!(validate_performance_limits(&limits()), Ok(()));
    let mut l = limits();
    l.max_total_time_ms = 0;
    l.max_memory_per_analysis_bytes = 0;
    assert_eq!(
        validate_performance_limits(&l),
        Err(ConfigurationError::InvalidPerformanceLimit { field: "max_total_time_ms".to_string(), value: 0 })
    );
}

#[test]
fn priority_settings_are_checked() {
    let base = vec![("todo".to_string(), 7u8), ("docs".to_string(), 0u8), ("api".to_string(), 11u8)];
    assert_eq!(validate_priority_config(&base, 1, 10), Err(ConfigurationError::InvalidPriority { priority: 0 }));
    let ok = vec![("todo".to_string(), 7u8)];
    assert_eq!(validate_priority_config(&ok, 1, 10), Ok(()));
    assert_eq!(validate_priority_config(&ok, 0, 10), Err(ConfigurationError::InvalidPriority { priority: 0 }));
    assert_eq!(validate_priority_config(&ok, 1, 12), Err(ConfigurationError::InvalidPriority { priority: 12 }));
    assert_eq!(
        validate_priority_config(&ok, 8, 3),
        Err(ConfigurationError::RuleValidation {
            rule_name: "priority_bounds".to_string(),
            error: "min_priority cannot be greater than max_priority".to_string()
        })
    );
}

#[test]
fn conflicting_settings_are_reported() {
    let limits = ResourceLimitsConfig::default();
    assert_eq!(check_conflicting_settings(300, 3, &limits), Ok(()));
    let low_cpu = ResourceLimitsConfig { max_cpu_percent: 50, ..limits };
    assert_eq!(
        check_conflicting_settings(30, 6, &low_cpu),
        Err("High scan frequency and concurrency require higher CPU limits".to_string())
    );
    assert_eq!(
        check_conflicting_settings(300, 11, &limits),
        Err("Concurrent tasks (11) may exceed memory limits (estimated 1100 MB needed, 2048 MB available)".to_string())
    );
    assert_eq!(check_conflicting_settings(300, 10, &limits), Ok(()));
}

fn default_doc_patterns() -> Vec<String> {
    vec![r"///.*".to_string(), r"//!.*".to_string(), r"/\*\*.*\*/".to_string(), r"#\[doc.*\]".to_string()]
}

fn default_tech_patterns() -> Vec<String> {
    vec![
        r"use\s+([a-zA-Z_][a-zA-Z0-9_]*)::".to_string(),
        r"import\s+([a-zA-Z_][a-zA-Z0-9_]*)".to_string(),
        r"#include\s*<([^>]+)>".to_string(),
    ]
}

fn default_excluded_file_patterns() -> Vec<String> {
    vec![r".*\.lock$".to_string(), r".*\.tmp$".to_string(), r".*\.backup$".to_string()]
}

#[test]
fn test_config_validation_invalid_regex() {
    let todo = vec!["[invalid regex".to_string()];

    let result = validate_regex_patterns(&todo, &default_doc_patterns(), &default_tech_patterns(), &default_excluded_file_patterns());
    assert!(result.is_err());
    assert!(matches!(result, Err(ConfigurationError::InvalidRegex { .. })));
}

#[test]
fn regex_validation_order_and_success() {
    assert!(validate_regex_patterns(&Vec::new(), &default_doc_patterns(), &default_tech_patterns(), &default_excluded_file_patterns()).is_ok());

    let mut excluded = default_excluded_file_patterns();
    excluded.push("(".to_string());
    let mut tech = default_tech_patterns();
    tech.push("[".to_string());
    tech.push("(".to_string());
    match validate_regex_patterns(&Vec::new(), &default_doc_patterns(), &tech, &excluded) {
        Err(ConfigurationError::InvalidRegex { context, pattern, error }) => {
            assert_eq!(context, "Technology patterns");
            assert_eq!(pattern, "[");
            assert!(!error.is_empty());
        }
        other => panic!("unexpected {:?}", other),
    }
    match validate_regex_patterns(&Vec::new(), &default_doc_patterns(), &default_tech_patterns(), &excluded) {
        Err(ConfigurationError::InvalidRegex { context, pattern, .. }) => {
            assert_eq!(context, "Excluded file patterns");
            assert_eq!(pattern, "(");
        }
        other => panic!("unexpected {:?}", other),
    }
}

fn default_limits() -> PerformanceLimits {
    PerformanceLimits {
        max_file_size_bytes: 50 * 1024 * 1024,
        analysis_timeout_ms: 500,
        max_total_time_ms: 500,
        max_analysis_time_ms: 100,
        max_memory_per_analysis_bytes: 100 * 1024 * 1024,
    }
}

fn default_base_priorities() -> Vec<(String, u8)> {
    vec![
        ("TodoComment".to_string(), 7),
        ("MissingDocumentation".to_string(), 6),
        ("UndocumentedTechnology".to_string(), 8),
        ("ApiDocumentationGap".to_string(), 9),
        ("ConfigurationGap".to_string(), 5),
    ]
}

#[test]
fn test_config_validation_invalid_performance_limit() {
    let mut limits = default_limits();
    limits.max_total_time_ms = 0; // Invalid

    let result = validate_performance_limits(&limits);
    assert!(result.is_err());
    assert!(matches!(result, Err(ConfigurationError::InvalidPerformanceLimit { .. })));
}

#[test]
fn test_config_validation_invalid_priority() {
    let mut base_priorities = default_base_priorities();
    base_priorities[0].1 = 15; // Invalid

    let result = validate_priority_config(&base_priorities, 1, 10);
    assert!(result.is_err());
    assert!(matches!(result, Err(ConfigurationError::InvalidPriority { .. })));
}
