use fortitude::gap_analyzer::{DetectedGap, GapType};
use fortitude::impact_assessor::{
    analyze_api_visibility, analyze_dependency_impact, analyze_development_activity, analyze_gap_impact,
    analyze_team_impact, analyze_usage_patterns, check_analysis_limits, file_location, FileLocation,
};

fn gap(gap_type: GapType, path: &str, context: &str) -> DetectedGap {
    DetectedGap::new(
        gap_type,
        path.to_string(),
        42,
        context.to_string(),
        "Implement proper error handling for main function".to_string(),
        90,
    )
}

#[test]
fn file_locations() {
    assert_eq!(file_location("src/lib.rs"), FileLocation::LibraryRoot);
    assert_eq!(file_location("crates/core/SRC/LIB.RS"), FileLocation::LibraryRoot);
    assert_eq!(file_location("src/main.rs"), FileLocation::MainFile);
    assert_eq!(file_location("bin/main.rs"), FileLocation::MainFile);
    assert_eq!(file_location("src/proactive/mod.rs"), FileLocation::Source);
    assert_eq!(file_location("tests/unit_test.rs"), FileLocation::Tests);
    assert_eq!(file_location("docs/readme.md"), FileLocation::Other);
}

#[test]
fn todo_in_main_file() {
    let g = gap(GapType::TodoComment, "src/main.rs", "// TODO: Implement error handling");
    let usage = analyze_usage_patterns(&g);
    assert_eq!(usage.usage_frequency_tenths, 80);
    assert_eq!(usage.referencing_files, 10);
    assert_eq!(usage.analysis_confidence_percent, 80);
    let dependency = analyze_dependency_impact(&g);
    assert_eq!(dependency.dependency_impact_tenths, 65);
    assert_eq!(dependency.reverse_dependencies, 8);
    let api = analyze_api_visibility(&g);
    assert!(!api.has_public_api);
    assert_eq!(api.api_visibility_tenths, 40);
    let activity = analyze_development_activity(&g);
    assert!(activity.actively_developed);
    assert_eq!(activity.change_frequency_tenths, 20);
    assert_eq!(activity.last_modified_days_ago, Some(3));
    assert_eq!(activity.average_modification_interval_secs, Some(4 * 86400));
    let team = analyze_team_impact(&g);
    assert_eq!(team.critical_workflows, vec!["development".to_string()]);
    assert_eq!(team.team_impact_tenths, 60);
    // usage 80, dependency 65, api 40, activity 80, team 60: the later of the two 80s wins
    assert_eq!(analyze_gap_impact(&g).primary_impact_factor(), "development_activity");
}

#[test]
fn public_api_in_library_root_is_capped() {
    let g = gap(GapType::ApiDocumentationGap, "src/lib.rs", "pub fn process_data() -> Result<Data, Error>");
    let a = analyze_gap_impact(&g);
    assert_eq!(a.usage_analysis.usage_frequency_tenths, 100);
    assert_eq!(a.dependency_analysis.dependency_impact_tenths, 100);
    assert_eq!(a.dependency_analysis.reverse_dependencies, 25);
    assert_eq!(a.api_visibility_analysis.api_visibility_tenths, 100);
    assert_eq!(a.api_visibility_analysis.public_methods, 6);
    assert!(a.api_visibility_analysis.external_api_surface);
    assert_eq!(
        a.team_analysis.critical_workflows,
        vec!["API usage".to_string(), "integration testing".to_string()]
    );
    assert_eq!(a.primary_impact_factor(), "api_visibility");
}

#[test]
fn public_struct_context_raises_visibility() {
    let g = gap(GapType::MissingDocumentation, "lib/helpers.py", "pub struct Config {");
    let api = analyze_api_visibility(&g);
    assert!(api.has_public_api);
    assert_eq!(api.api_visibility_tenths, 70);
    assert_eq!(api.public_methods, 1);
    assert_eq!(api.analysis_confidence_percent, 50);
    let usage = analyze_usage_patterns(&g);
    assert_eq!(usage.usage_frequency_tenths, 50);
    assert_eq!(usage.referencing_files, 0);
}

#[test]
fn configuration_gap_analyses() {
    let g = gap(GapType::ConfigurationGap, "tests/config_test.rs", "timeout = 30");
    let a = analyze_gap_impact(&g);
    assert_eq!(a.usage_analysis.usage_frequency_tenths, 45);
    assert_eq!(a.usage_analysis.referencing_files, 2);
    assert_eq!(a.dependency_analysis.dependency_impact_tenths, 60);
    assert!(!a.activity_analysis.actively_developed);
    assert_eq!(a.activity_analysis.last_modified_days_ago, None);
    assert_eq!(a.team_analysis.affected_team_members, 6);
    // usage 45, dependency 60, api 70, activity 60, team 80
    assert_eq!(a.primary_impact_factor(), "team_impact");
    let tech = analyze_gap_impact(&gap(GapType::UndocumentedTechnology, "src/net.rs", "use tokio;"));
    // usage 80, dependency 70, api 30, activity 40, team 70
    assert_eq!(tech.primary_impact_factor(), "usage_frequency");
    assert_eq!(tech.api_visibility_analysis.internal_methods, 3);
}

#[test]
fn analysis_limits() {
    assert!(check_analysis_limits(5, 100).is_ok());
    assert_eq!(
        check_analysis_limits(0, 0).unwrap_err(),
        "max_dependency_depth must be greater than 0"
    );
    assert_eq!(
        check_analysis_limits(3, 0).unwrap_err(),
        "max_analysis_time_ms must be greater than 0"
    );
}
