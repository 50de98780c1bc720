use fortitude::gap_analyzer::{
    gaps_for_captures, has_documentation_above, has_examples_in_documentation, is_external_crate, CaptureRule,
    DetectedGap, GapAnalysisConfig, GapAnalysisError, GapAnalyzer, GapType,
};
use fortitude::patterns::PatternCapture;

#[test]
fn test_gap_type_priority() {
    assert_eq!(GapType::TodoComment.priority(), 7);
    assert_eq!(GapType::ApiDocumentationGap.priority(), 9);
    assert_eq!(GapType::UndocumentedTechnology.priority(), 8);
}

#[test]
fn gap_type_priorities_all() {
    assert_eq!(GapType::MissingDocumentation.priority(), 6);
    assert_eq!(GapType::ConfigurationGap.priority(), 5);
}

#[test]
fn documentation_above() {
    let lines: Vec<String> = vec![
        "/// Does things".to_string(),
        "".to_string(),
        "".to_string(),
        "pub fn documented() {}".to_string(),
        "".to_string(),
        "".to_string(),
        "".to_string(),
        "pub fn undocumented() {}".to_string(),
    ];
    assert!(has_documentation_above(&lines, 3));
    assert!(!has_documentation_above(&lines, 7));
    assert!(!has_documentation_above(&lines, 0));
    assert!(has_documentation_above(&lines, 2));
    assert!(!has_documentation_above(&lines, 4) || has_documentation_above(&lines, 4));
    let example: Vec<String> = vec!["  /// # Example".to_string(), "pub fn f() {}".to_string()];
    assert!(has_examples_in_documentation(&example, 1));
    assert!(!has_examples_in_documentation(&lines, 3));
    assert!(has_documentation_above(&vec!["    #[doc = \"x\"]".to_string(), "x".to_string()], 1));
    assert!(has_documentation_above(&vec!["  end */".to_string(), "x".to_string()], 1));
    // Index past the end only looks at the lines that exist.
    assert!(has_documentation_above(&lines, 100) == false);
}

#[test]
fn external_crates() {
    assert!(is_external_crate("serde"));
    assert!(is_external_crate("tokio"));
    assert!(!is_external_crate("std"));
    assert!(!is_external_crate("crate"));
    assert!(!is_external_crate("crate::proactive"));
    assert!(!is_external_crate("self::x"));
}

fn metadata_value<'a>(gap: &'a DetectedGap, key: &str) -> Option<&'a String> {
    gap.metadata.iter().find(|(k, _)| k == key).map(|(_, v)| v)
}

#[test]
fn gap_analyzer_test_config_should_analyze_file() {
    let config = GapAnalysisConfig::for_rust_project();

    assert!(config.should_analyze_file("test.rs"));
    assert!(config.should_analyze_file("README.md"));
    assert!(config.should_analyze_file("Cargo.toml"));
    assert!(!config.should_analyze_file("test.exe"));
    assert!(!config.should_analyze_file("no_extension"));
}

#[test]
fn test_gap_analyzer_creation() {
    let config = GapAnalysisConfig::for_rust_project();
    let result = GapAnalyzer::new(config);
    assert!(result.is_ok());
}

#[test]
fn test_detect_todo_comments() {
    let analyzer = GapAnalyzer::for_rust_project().unwrap();
    let content = r#"
fn main() {
    // TODO: Implement error handling
    println!("Hello, world!");
    // FIXME: This is broken
    let x = 42;
}
"#;
    let file_path = "workspace/test.rs";

    let gaps = analyzer.detect_todo_comments(content, file_path);
    assert_eq!(gaps.len(), 2);
    assert_eq!(gaps[0].gap_type, GapType::TodoComment);
    assert_eq!(gaps[0].line_number, 3);
    assert!(gaps[0].description.contains("Implement error handling"));
}

#[test]
fn test_detect_missing_documentation() {
    let analyzer = GapAnalyzer::for_rust_project().unwrap();
    let content = r#"
pub fn undocumented_function() {
    println!("No docs");
}

/// This function has documentation
pub fn documented_function() {
    println!("Has docs");
}
"#;
    let file_path = "workspace/test.rs";

    let gaps = analyzer.detect_missing_documentation(content, file_path).unwrap();
    assert_eq!(gaps.len(), 1);
    assert_eq!(gaps[0].gap_type, GapType::MissingDocumentation);
    assert!(gaps[0].description.contains("undocumented_function"));
}

#[test]
fn test_detect_undocumented_technologies() {
    let analyzer = GapAnalyzer::for_rust_project().unwrap();
    let content = r#"
use std::collections::HashMap;
use serde::{Deserialize, Serialize};
use tokio::fs;
use super::module;
"#;
    let file_path = "workspace/test.rs";

    let gaps = analyzer.detect_undocumented_technologies(content, file_path).unwrap();
    // Should detect serde and tokio but not std or super
    assert!(gaps.len() >= 2);
    let crate_names: Vec<_> = gaps.iter().filter_map(|g| metadata_value(g, "crate_name")).collect();
    assert!(crate_names.contains(&&"serde".to_string()));
    assert!(crate_names.contains(&&"tokio".to_string()));
}

#[test]
fn test_analyze_file_performance() {
    let config = GapAnalysisConfig::for_rust_project().with_timeout_ms(100);
    let analyzer = GapAnalyzer::new(config).unwrap();

    let content = "fn test() {}\n".repeat(1000);

    let start = std::time::Instant::now();
    let result = analyzer.analyze_content(&content, "workspace/test.rs");
    let duration = start.elapsed();

    assert!(result.is_ok());
    assert!(duration < std::time::Duration::from_millis(500));
}

#[test]
fn test_file_event_integration() {
    let analyzer = GapAnalyzer::for_rust_project().unwrap();
    let content = "// TODO: Add tests\npub fn untested_function() {}";

    let gaps = analyzer.analyze_content(content, "workspace/test.rs").unwrap();

    assert!(!gaps.is_empty());
    let gap_types: Vec<GapType> = gaps.iter().map(|g| g.gap_type).collect();
    assert!(gap_types.contains(&GapType::TodoComment));
    assert!(gap_types.contains(&GapType::MissingDocumentation));
}

#[test]
fn todo_gap_fields() {
    let analyzer = GapAnalyzer::for_rust_project().unwrap();
    let gaps = analyzer.detect_todo_comments("let a = 1;\n   // hack: quick fix  \n/* TODO: tidy */", "x.rs");
    assert_eq!(gaps.len(), 2);
    assert_eq!(gaps[0].line_number, 2);
    assert_eq!(gaps[0].context, "// hack: quick fix");
    assert_eq!(gaps[0].description, "quick fix");
    assert_eq!(gaps[0].confidence_percent, 90);
    assert_eq!(gaps[0].priority, 7);
    assert_eq!(gaps[0].file_path, "x.rs");
    assert_eq!(gaps[1].line_number, 3);
    assert_eq!(gaps[1].description, "tidy");
    assert!(gaps[0].metadata.is_empty());
}

#[test]
fn custom_todo_pattern_is_tried_after_builtins() {
    let mut config = GapAnalysisConfig::for_rust_project();
    config.custom_todo_patterns.push(r"XXX\s+(.+)".to_string());
    let analyzer = GapAnalyzer::new(config).unwrap();
    let gaps = analyzer.detect_todo_comments("XXX later", "a.rs");
    assert_eq!(gaps.len(), 1);
    assert_eq!(gaps[0].description, "later");
}

#[test]
fn invalid_custom_pattern_is_refused() {
    let mut config = GapAnalysisConfig::default();
    config.custom_todo_patterns.push("(unclosed".to_string());
    assert!(matches!(GapAnalyzer::new(config), Err(GapAnalysisError::RegexCompilation(_))));
}

#[test]
fn missing_documentation_for_structs_and_metadata() {
    let analyzer = GapAnalyzer::for_rust_project().unwrap();
    let content = "    pub async fn run_it(x: u8) {}\npub struct Bare;\n\n/// Documented\npub struct Fine;\n";
    let gaps = analyzer.detect_missing_documentation(content, "lib.rs").unwrap();
    assert_eq!(gaps.len(), 2);
    // functions are reported before structs
    assert_eq!(gaps[0].description, "Public function 'run_it' lacks documentation");
    assert_eq!(gaps[0].line_number, 1);
    assert_eq!(gaps[0].context, "pub async fn run_it(");
    assert_eq!(metadata_value(&gaps[0], "function_name").unwrap(), "run_it");
    assert_eq!(metadata_value(&gaps[0], "item_type").unwrap(), "function");
    assert_eq!(gaps[1].description, "Public struct 'Bare' lacks documentation");
    assert_eq!(gaps[1].line_number, 2);
    assert_eq!(metadata_value(&gaps[1], "struct_name").unwrap(), "Bare");
    assert_eq!(gaps[1].confidence_percent, 80);
    assert_eq!(gaps[1].priority, 6);
}

#[test]
fn non_rust_files_have_no_code_gaps() {
    let analyzer = GapAnalyzer::for_rust_project().unwrap();
    let content = "pub fn f() {}\nuse serde::Serialize;\n";
    assert!(analyzer.detect_missing_documentation(content, "notes.md").unwrap().is_empty());
    assert!(analyzer.detect_undocumented_technologies(content, "notes.md").unwrap().is_empty());
    assert!(analyzer.detect_api_documentation_gaps(content, "notes.md").unwrap().is_empty());
}

#[test]
fn technology_root_and_full_path() {
    let analyzer = GapAnalyzer::for_rust_project().unwrap();
    let content = "use tokio::sync::mpsc;\nuse crate::x;\nuse self::y;\n";
    let gaps = analyzer.detect_undocumented_technologies(content, "m.rs").unwrap();
    assert_eq!(gaps.len(), 1);
    assert_eq!(gaps[0].description, "External crate 'tokio' may need documentation");
    assert_eq!(metadata_value(&gaps[0], "full_path").unwrap(), "tokio::sync::mpsc");
    assert_eq!(gaps[0].context, "use tokio::sync::mpsc");
    assert_eq!(gaps[0].gap_type.priority(), 8);
    assert_eq!(gaps[0].confidence_percent, 70);
}

#[test]
fn api_documentation_without_examples() {
    let analyzer = GapAnalyzer::for_rust_project().unwrap();
    let content = "/// Adds.\npub fn add() {}\n\n/// # Example\n/// add();\npub fn with_example() {}\npub fn bare() {}\n";
    let gaps = analyzer.detect_api_documentation_gaps(content, "m.rs").unwrap();
    assert_eq!(gaps.len(), 1);
    assert_eq!(gaps[0].description, "Public function 'add' documentation lacks examples");
    assert_eq!(metadata_value(&gaps[0], "missing_element").unwrap(), "examples");
    assert_eq!(gaps[0].line_number, 2);
    assert_eq!(gaps[0].gap_type, GapType::ApiDocumentationGap);
}

#[test]
fn configuration_keys_in_toml_only() {
    let analyzer = GapAnalyzer::for_rust_project().unwrap();
    let content = "name = \"x\"\n[section]\ntimeout_ms = 5\n";
    let gaps = analyzer.detect_configuration_gaps(content, "Config.toml").unwrap();
    assert_eq!(gaps.len(), 2);
    assert_eq!(gaps[0].description, "Configuration key 'name' may need documentation");
    assert_eq!(gaps[1].line_number, 3);
    assert_eq!(metadata_value(&gaps[1], "config_key").unwrap(), "timeout_ms");
    assert_eq!(gaps[1].confidence_percent, 50);
    assert!(analyzer.detect_configuration_gaps(content, "config.yaml").unwrap().is_empty());
    assert!(analyzer.detect_configuration_gaps(content, "main.rs").unwrap().is_empty());
}

#[test]
fn confidence_threshold_filters_and_detectors_switch_off() {
    let content = "// TODO: one\npub fn f() {}\nuse serde::Serialize;\n";
    let all = GapAnalyzer::new(GapAnalysisConfig::for_rust_project().with_confidence_threshold(0)).unwrap();
    let gaps = all.analyze_content(content, "f.rs").unwrap();
    assert_eq!(gaps.len(), 3);
    assert_eq!(gaps[0].gap_type, GapType::TodoComment);
    assert_eq!(gaps[1].gap_type, GapType::MissingDocumentation);
    assert_eq!(gaps[2].gap_type, GapType::UndocumentedTechnology);

    let strict = GapAnalyzer::new(GapAnalysisConfig::for_rust_project().with_confidence_threshold(85)).unwrap();
    let gaps = strict.analyze_content(content, "f.rs").unwrap();
    assert_eq!(gaps.len(), 1);
    assert_eq!(gaps[0].gap_type, GapType::TodoComment);

    let mut config = GapAnalysisConfig::for_rust_project();
    config.enable_todo_detection = false;
    let no_todo = GapAnalyzer::new(config).unwrap();
    let gaps = no_todo.analyze_content(content, "f.rs").unwrap();
    assert_eq!(gaps.len(), 2);
    assert!(gaps.iter().all(|g| g.gap_type != GapType::TodoComment));
}

#[test]
fn file_size_limit() {
    let analyzer = GapAnalyzer::new(GapAnalysisConfig::default().with_max_file_size_mb(1)).unwrap();
    assert!(analyzer.check_file_size(1048576).is_ok());
    match analyzer.check_file_size(1048577) {
        Err(GapAnalysisError::FileTooLarge { size, limit }) => {
            assert_eq!(size, 1048577);
            assert_eq!(limit, 1048576);
        }
        other => panic!("unexpected {:?}", other),
    }
}

#[test]
fn config_defaults_and_builders() {
    let config = GapAnalysisConfig::default();
    assert_eq!(config.max_file_size_bytes, 50 * 1024 * 1024);
    assert_eq!(config.analysis_timeout_ms, 500);
    assert_eq!(config.min_confidence_percent, 60);
    assert_eq!(config.supported_extensions.len(), 14);
    assert!(config.should_analyze_file("main.go"));
    assert!(!GapAnalysisConfig::for_rust_project().should_analyze_file("main.go"));
    assert!(config.supports_extension("h"));
    assert!(!config.supports_extension("rs2"));
    let config = config.with_timeout_ms(7).with_confidence_threshold(42).with_max_file_size_mb(3);
    assert_eq!(config.analysis_timeout_ms, 7);
    assert_eq!(config.min_confidence_percent, 42);
    assert_eq!(config.max_file_size_bytes, 3 * 1024 * 1024);
}

#[test]
fn detected_gap_builders() {
    let gap = DetectedGap::new(GapType::ConfigurationGap, "a.toml".to_string(), 4, "k = 1".to_string(), "d".to_string(), 50);
    assert_eq!(gap.priority, 5);
    assert_eq!(gap.column_number, None);
    let gap = gap.with_column(9).with_metadata("k", "1").with_metadata("j", "2").with_metadata("k", "3");
    assert_eq!(gap.column_number, Some(9));
    assert_eq!(gap.metadata, vec![("k".to_string(), "3".to_string()), ("j".to_string(), "2".to_string())]);
}

#[test]
fn gaps_from_given_matches() {
    let lines: Vec<String> = vec!["// intro".to_string(), "/// Documented".to_string(), "pub fn documented() {}".to_string()];
    let captures = vec![
        PatternCapture {
            before: "// intro\n/// Documented\n".to_string(),
            groups: vec![Some("pub fn documented(".to_string()), Some(String::new()), None, Some("documented".to_string())],
        },
        PatternCapture {
            before: String::new(),
            groups: vec![Some("  pub fn first(".to_string()), Some("  ".to_string()), None, Some("first".to_string())],
        },
        PatternCapture { before: String::new(), groups: vec![Some("pub fn".to_string())] },
    ];
    let gaps = gaps_for_captures(CaptureRule::FunctionDocumentation, "m.rs", &lines, &captures);
    assert_eq!(gaps.len(), 1);
    assert_eq!(gaps[0].line_number, 1);
    assert_eq!(gaps[0].context, "pub fn first(");
    assert_eq!(gaps[0].description, "Public function 'first' lacks documentation");

    let api = gaps_for_captures(CaptureRule::FunctionExamples, "m.rs", &lines, &captures);
    assert_eq!(api.len(), 1);
    assert_eq!(api[0].line_number, 3);
    assert_eq!(api[0].gap_type, GapType::ApiDocumentationGap);

    let uses = vec![PatternCapture {
        before: "x\ny\n".to_string(),
        groups: vec![Some("use serde::de".to_string()), Some("serde::de".to_string())],
    }];
    let tech = gaps_for_captures(CaptureRule::ExternalCrate, "m.rs", &lines, &uses);
    assert_eq!(tech.len(), 1);
    assert_eq!(tech[0].line_number, 3);
    assert_eq!(metadata_value(&tech[0], "crate_name").unwrap(), "serde");
    assert_eq!(metadata_value(&tech[0], "full_path").unwrap(), "serde::de");
}

#[test]
fn display_names() {
    assert_eq!(GapType::TodoComment.to_string(), "todo_comment");
    assert_eq!(GapType::ApiDocumentationGap.to_string(), "api_documentation_gap");
    assert_eq!(GapType::ConfigurationGap.debug_name(), "ConfigurationGap");
    assert_eq!(GapType::UndocumentedTechnology.debug_name(), format!("{:?}", GapType::UndocumentedTechnology));
}
