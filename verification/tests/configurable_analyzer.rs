use fortitude::config::{ConfigurationError, CustomPriorityRule, ExclusionRules, ValidationRules};
use fortitude::configurable_analyzer::{
    compile_patterns, evaluate_custom_priority_rule, evaluate_exclusion_rules, evaluate_quality_lengths,
    evaluate_validation_rules, exclusion_evaluation, filter_gap, has_urgent_keywords, rank_by_enhanced_priority,
    ConfigurableAnalysisError, QualityLengthLimits, RuleEvaluation, RulePatternConfig,
};
use fortitude::gap_analyzer::{DetectedGap, GapType};

fn default_urgent_keywords() -> Vec<String> {
    vec!["URGENT".to_string(), "CRITICAL".to_string(), "SECURITY".to_string(), "FIXME".to_string()]
}

fn pattern_config(exclusion_patterns: Vec<String>, priority_rules: Vec<CustomPriorityRule>) -> RulePatternConfig {
    RulePatternConfig {
        todo_patterns: Vec::new(),
        doc_patterns: vec![r"///.*".to_string(), r"//!.*".to_string()],
        tech_patterns: vec![r"use\s+([a-zA-Z_][a-zA-Z0-9_]*)::".to_string()],
        exclusion_patterns,
        validation_patterns: Vec::new(),
        priority_rules,
    }
}

fn rule(name: &str, file: Option<&str>, gap_type: Option<&str>, content: Option<&str>) -> CustomPriorityRule {
    CustomPriorityRule {
        name: name.to_string(),
        file_pattern: file.map(|s| s.to_string()),
        gap_type_pattern: gap_type.map(|s| s.to_string()),
        content_pattern: content.map(|s| s.to_string()),
        priority_adjustment: 2,
        description: "boost".to_string(),
    }
}

fn todo_gap(context: &str, description: &str) -> DetectedGap {
    DetectedGap::new(GapType::TodoComment, "test.rs".to_string(), 10, context.to_string(), description.to_string(), 80)
}

fn detail<'a>(details: &'a [(String, String)], key: &str) -> Option<&'a String> {
    details.iter().find(|(k, _)| k == key).map(|(_, v)| v)
}

#[test]
fn test_exclusion_rules_evaluation() {
    let mut rules = ExclusionRules::default();
    rules.non_actionable_keywords.push("maybe".to_string());
    let patterns = compile_patterns(&pattern_config(rules.exclude_patterns.clone(), Vec::new())).unwrap();

    let gap = todo_gap("// TODO: Maybe do this someday", "Maybe implement this feature");

    let result = evaluate_exclusion_rules(&patterns, &rules, &gap);
    assert!(!result.passed); // Should be excluded due to "maybe" keyword
}

#[test]
fn test_urgent_keyword_detection() {
    let urgent_gap = DetectedGap::new(
        GapType::TodoComment,
        "test.rs".to_string(),
        10,
        "// FIXME: URGENT security issue".to_string(),
        "Fix security vulnerability".to_string(),
        90,
    );
    assert!(has_urgent_keywords(&default_urgent_keywords(), &urgent_gap));

    let normal_gap = todo_gap("// TODO: Add documentation", "Add docs");
    assert!(!has_urgent_keywords(&default_urgent_keywords(), &normal_gap));
}

#[test]
fn exclusion_details_record_each_check() {
    let rules = ExclusionRules {
        exclude_patterns: vec![r"(?i)temporary".to_string(), r"(?i)debug.*only".to_string()],
        exclude_file_paths: Vec::new(),
        exclude_gap_types: vec!["TodoComment".to_string()],
        non_actionable_keywords: vec!["someday".to_string()],
    };
    let patterns = compile_patterns(&pattern_config(rules.exclude_patterns.clone(), Vec::new())).unwrap();

    let gap = todo_gap("// TODO: debug only hook", "Someday clean up");
    let result = evaluate_exclusion_rules(&patterns, &rules, &gap);
    assert!(!result.passed);
    assert_eq!(
        result.details,
        vec![
            ("exclusion_pattern_1".to_string(), "matched".to_string()),
            ("non_actionable_keyword".to_string(), "someday".to_string()),
            ("gap_type_excluded".to_string(), "TodoComment".to_string()),
        ]
    );

    let config_gap = DetectedGap::new(GapType::ConfigurationGap, "a.toml".to_string(), 1, "k = 1".to_string(), "Key".to_string(), 50);
    let result = evaluate_exclusion_rules(&patterns, &rules, &config_gap);
    assert!(result.passed);
    assert_eq!(result.details, vec![("exclusion_check".to_string(), "passed".to_string())]);
    assert_eq!(detail(&result.details, "exclusion_check").unwrap(), "passed");
}

#[test]
fn compile_patterns_reports_first_invalid_pattern() {
    let bad_exclusion = pattern_config(vec!["ok".to_string(), "(bad".to_string()], Vec::new());
    match compile_patterns(&bad_exclusion) {
        Err(ConfigurableAnalysisError::Configuration(ConfigurationError::InvalidRegex { context, pattern, .. })) => {
            assert_eq!(context, "Exclusion patterns");
            assert_eq!(pattern, "(bad");
        }
        other => panic!("unexpected {:?}", other.is_ok()),
    }

    let bad_rule = pattern_config(Vec::new(), vec![rule("fine", None, None, Some("x+")), rule("broken", None, None, Some("[z"))]);
    match compile_patterns(&bad_rule) {
        Err(ConfigurableAnalysisError::Configuration(ConfigurationError::InvalidRegex { context, pattern, .. })) => {
            assert_eq!(context, "Priority rule broken");
            assert_eq!(pattern, "[z");
        }
        other => panic!("unexpected {:?}", other.is_ok()),
    }

    let mut bad_todo = pattern_config(vec!["(bad".to_string()], Vec::new());
    bad_todo.todo_patterns.push("(also bad".to_string());
    match compile_patterns(&bad_todo) {
        Err(ConfigurableAnalysisError::Configuration(ConfigurationError::InvalidRegex { context, .. })) => {
            assert_eq!(context, "TODO patterns");
        }
        other => panic!("unexpected {:?}", other.is_ok()),
    }
}

#[test]
fn custom_priority_rules() {
    let rules = vec![rule("security", None, None, Some("(?i)security"))];
    let patterns = compile_patterns(&pattern_config(Vec::new(), rules.clone())).unwrap();
    let gap = todo_gap("// TODO: security review", "Check auth");
    let other = todo_gap("// TODO: tidy", "Cleanup");

    assert!(evaluate_custom_priority_rule(&patterns, &rules[0], &gap).unwrap());
    assert!(!evaluate_custom_priority_rule(&patterns, &rules[0], &other).unwrap());

    let by_file = rule("rust files", Some(r"\.rs$"), Some("Todo"), None);
    assert!(evaluate_custom_priority_rule(&patterns, &by_file, &other).unwrap());
    let by_type = rule("docs", None, Some("Documentation"), None);
    assert!(!evaluate_custom_priority_rule(&patterns, &by_type, &other).unwrap());
    let by_other_file = rule("toml", Some(r"\.toml$"), None, None);
    assert!(!evaluate_custom_priority_rule(&patterns, &by_other_file, &other).unwrap());

    // A content pattern with no compiled entry of that name imposes nothing.
    let unknown = rule("unknown", None, None, Some("never"));
    assert!(evaluate_custom_priority_rule(&patterns, &unknown, &other).unwrap());

    let broken = rule("broken", Some("(oops"), None, None);
    match evaluate_custom_priority_rule(&patterns, &broken, &other) {
        Err(ConfigurableAnalysisError::RuleEvaluation { rule, error }) => {
            assert_eq!(rule, "broken");
            assert!(error.starts_with("Invalid file pattern: "));
        }
        other => panic!("unexpected {:?}", other.is_ok()),
    }
}

#[test]
fn ranking_is_stable_descending_and_limited() {
    let priorities = vec![5u8, 9, 5, 7, 9];
    assert_eq!(rank_by_enhanced_priority(&priorities, 10), vec![1, 4, 3, 0, 2]);
    assert_eq!(rank_by_enhanced_priority(&priorities, 3), vec![1, 4, 3]);
    assert_eq!(rank_by_enhanced_priority(&priorities, 0), Vec::<usize>::new());
    assert_eq!(rank_by_enhanced_priority(&Vec::new(), 4), Vec::<usize>::new());
    assert_eq!(rank_by_enhanced_priority(&vec![3, 3, 3], 2), vec![0, 1]);
}

#[test]
fn exclusion_evaluation_from_given_match() {
    let rules = ExclusionRules {
        exclude_patterns: Vec::new(),
        exclude_file_paths: Vec::new(),
        exclude_gap_types: Vec::new(),
        non_actionable_keywords: vec!["someday".to_string()],
    };
    let gap = todo_gap("// TODO: x", "Do it");
    let hit = exclusion_evaluation(&rules, &gap, Some(12));
    assert!(!hit.passed);
    assert_eq!(hit.details, vec![("exclusion_pattern_12".to_string(), "matched".to_string())]);
    let clear = exclusion_evaluation(&rules, &gap, None);
    assert!(clear.passed);
    assert_eq!(clear.details, vec![("exclusion_check".to_string(), "passed".to_string())]);
}

fn default_lengths() -> QualityLengthLimits {
    QualityLengthLimits { min_content_length: 10, max_content_length: 5000, min_description_length: 5 }
}

#[test]
fn quality_length_checks() {
    let good = todo_gap("This is a reasonable length context for testing", "Valid description");
    let r = evaluate_quality_lengths(&default_lengths(), &good);
    assert!(r.passed);
    assert_eq!(
        r.details,
        vec![
            ("content_length_check".to_string(), "passed".to_string()),
            ("description_length_check".to_string(), "passed".to_string()),
        ]
    );
    let short = evaluate_quality_lengths(&default_lengths(), &todo_gap("short", "tiny"));
    assert!(!short.passed);
    assert_eq!(detail(&short.details, "content_length_check").unwrap(), "failed");
    assert_eq!(detail(&short.details, "description_length_check").unwrap(), "failed");
    let limits = QualityLengthLimits { max_content_length: 12, ..default_lengths() };
    let long = evaluate_quality_lengths(&limits, &todo_gap("much too long a context", "Valid description"));
    assert!(!long.passed);
    assert_eq!(detail(&long.details, "content_length_check").unwrap(), "too_long");
    // lengths count bytes: five two-byte letters are ten bytes
    let bytes = evaluate_quality_lengths(&default_lengths(), &todo_gap("ééééé", "Valid"));
    assert_eq!(detail(&bytes.details, "content_length_check").unwrap(), "passed");
}

#[test]
fn validation_rule_checks() {
    let rules = ValidationRules::default();
    let gap = todo_gap("// TODO: x", "do x");
    let ok = evaluate_validation_rules(&rules, &gap, true);
    assert!(ok.passed);
    assert_eq!(
        ok.details,
        vec![
            ("min_context_length".to_string(), "passed".to_string()),
            ("valid_line_numbers".to_string(), "passed".to_string()),
            ("file_existence".to_string(), "passed".to_string()),
        ]
    );
    let missing = evaluate_validation_rules(&rules, &gap, false);
    assert!(!missing.passed);
    assert_eq!(detail(&missing.details, "file_existence").unwrap(), "failed");
    let mut no_line = DetectedGap::new(GapType::TodoComment, "t.rs".to_string(), 0, "abc".to_string(), "d".to_string(), 80);
    no_line.line_number = 0;
    let bad = evaluate_validation_rules(&rules, &no_line, true);
    assert_eq!(detail(&bad.details, "min_context_length").unwrap(), "failed");
    assert_eq!(detail(&bad.details, "valid_line_numbers").unwrap(), "failed");
}

#[test]
fn filtering_pipeline_stages() {
    let rules = ExclusionRules::default();
    let patterns = compile_patterns(&pattern_config(rules.exclude_patterns.clone(), Vec::new())).unwrap();
    let validation = ValidationRules::default();
    let gap = todo_gap("// TODO: handle errors properly", "Handle errors properly");
    let quality = evaluate_quality_lengths(&default_lengths(), &gap);

    let (passed, applied) = filter_gap(true, quality.clone(), &patterns, &rules, &validation, &gap, true);
    assert!(passed);
    let names: Vec<&str> = applied.iter().map(|a| a.rule_name.as_str()).collect();
    assert_eq!(names, vec!["quality_thresholds", "exclusion_rules", "validation_rules"]);
    assert_eq!(applied[2].rule_type, "validation");
    assert!(applied.iter().all(|a| a.effect == "passed"));

    // a missing file fails validation only
    let (passed, applied) = filter_gap(true, quality.clone(), &patterns, &rules, &validation, &gap, false);
    assert!(!passed);
    assert_eq!(applied.len(), 3);
    assert_eq!(applied[2].effect, "failed");

    // an excluded gap never reaches validation
    let maybe = todo_gap("// TODO: maybe later", "Maybe implement this feature");
    let q = evaluate_quality_lengths(&default_lengths(), &maybe);
    let (passed, applied) = filter_gap(true, q, &patterns, &rules, &validation, &maybe, true);
    assert!(!passed);
    assert_eq!(applied.len(), 2);
    assert_eq!(applied[1].effect, "excluded");

    // a gap failing the quality check stops there
    let failed = RuleEvaluation { passed: false, details: vec![("quality_score_check".to_string(), "failed".to_string())] };
    let (passed, applied) = filter_gap(true, failed, &patterns, &rules, &validation, &gap, true);
    assert!(!passed);
    assert_eq!(applied.len(), 1);
    assert_eq!(applied[0].effect, "failed");
    assert_eq!(applied[0].details, vec![("quality_score_check".to_string(), "failed".to_string())]);

    // with filtering off nothing is checked
    let (passed, applied) = filter_gap(false, quality, &patterns, &rules, &validation, &maybe, false);
    assert!(passed);
    assert!(applied.is_empty());
}
