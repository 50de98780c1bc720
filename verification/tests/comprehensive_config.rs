use fortitude::comprehensive_config::{
    config_version, current_version, environment_settings, parse_channel_list, parse_cli_setting, parse_unsigned_setting,
    validate_custom_gap_rule, validate_gap_analysis_limits, validate_notification_lists, validate_optimization_interval,
    validate_research_limits, validate_research_quality_limits, validate_user_preference_limits, validate_workspace_paths,
    CliSetting, ConfigVersion, EnvironmentSettings, InvalidSetting,
};

#[test]
fn section_ranges() {
    assert!(validate_gap_analysis_limits(300, 3, 4, 1000).is_ok());
    assert_eq!(
        validate_gap_analysis_limits(0, 0, 1, 100001).unwrap_err(),
        vec!["scan_intervals_seconds".to_string(), "file_patterns".to_string(), "max_files_per_scan".to_string()]
    );
    assert!(validate_research_limits(3, 50, 300).is_ok());
    assert_eq!(
        validate_research_limits(21, 0, 29).unwrap_err(),
        vec![
            "max_concurrent_tasks".to_string(),
            "rate_limit_requests_per_minute".to_string(),
            "research_timeout_seconds".to_string()
        ]
    );
    assert!(validate_research_quality_limits(2, 3).is_ok());
    assert_eq!(validate_research_quality_limits(2, 6).unwrap_err(), vec!["max_retry_attempts".to_string()]);
    assert!(validate_notification_lists(3, 1).is_ok());
    assert_eq!(validate_notification_lists(0, 1).unwrap_err(), vec!["channels".to_string()]);
    assert!(validate_optimization_interval(3600).is_ok());
    assert!(validate_optimization_interval(299).is_err());
    assert!(validate_optimization_interval(86400).is_ok());
    assert!(validate_user_preference_limits(3, 4, 2).is_ok());
    assert_eq!(
        validate_user_preference_limits(3, 169, 0).unwrap_err(),
        vec!["notification_frequency_hours".to_string(), "preferred_formats".to_string()]
    );
    assert!(validate_workspace_paths(1).is_ok());
    assert_eq!(validate_workspace_paths(0).unwrap_err(), vec!["project_paths".to_string()]);
    assert!(validate_custom_gap_rule("security", "unsafe", 8).is_ok());
    assert_eq!(
        validate_custom_gap_rule("", "", 0).unwrap_err(),
        vec!["name".to_string(), "pattern".to_string(), "priority".to_string()]
    );
    assert!(validate_custom_gap_rule(&"x".repeat(101), "p", 5).is_err());
}

#[test]
fn settings_from_text() {
    assert_eq!(parse_unsigned_setting("max_memory_mb", "max memory", "4096", u64::MAX), Ok(4096));
    assert_eq!(parse_unsigned_setting("max_memory_mb", "max memory", "+12", u64::MAX), Ok(12));
    assert_eq!(
        parse_unsigned_setting("max_memory_mb", "max memory", "lots", u64::MAX),
        Err(InvalidSetting { field: "max_memory_mb".to_string(), message: "Invalid max memory: lots".to_string() })
    );
    assert!(parse_unsigned_setting("f", "l", "-1", u64::MAX).is_err());
    assert!(parse_unsigned_setting("f", "l", " 5", u64::MAX).is_err());

    assert_eq!(parse_cli_setting("scan-interval", "120"), Ok(CliSetting::ScanInterval(120)));
    assert_eq!(parse_cli_setting("confidence-threshold", "0.9"), Ok(CliSetting::ConfidenceThreshold));
    assert_eq!(parse_cli_setting("max-concurrent-tasks", "4"), Ok(CliSetting::MaxConcurrentTasks(4)));
    assert_eq!(parse_cli_setting("verbose", "yes"), Ok(CliSetting::Unknown));
    assert_eq!(
        parse_cli_setting("max-concurrent-tasks", "4294967296").unwrap_err().message,
        "Invalid max concurrent tasks: 4294967296"
    );
    assert_eq!(parse_cli_setting("scan-interval", "soon").unwrap_err().field, "scan_intervals_seconds");

    assert_eq!(
        parse_channel_list(" email, desktop ,slack"),
        vec!["email".to_string(), "desktop".to_string(), "slack".to_string()]
    );
    assert_eq!(parse_channel_list(""), vec!["".to_string()]);
    assert_eq!(parse_channel_list("a,,b,"), vec!["a".to_string(), "".to_string(), "b".to_string(), "".to_string()]);
}

#[test]
fn environments_and_versions() {
    assert_eq!(
        environment_settings("development"),
        EnvironmentSettings {
            scan_intervals_seconds: Some(60),
            max_cpu_percent: Some(90),
            monitoring_enabled: Some(false),
            rate_limit_requests_per_minute: None,
        }
    );
    assert_eq!(environment_settings("staging").scan_intervals_seconds, Some(300));
    assert_eq!(environment_settings("staging").monitoring_enabled, Some(true));
    let production = environment_settings("production");
    assert_eq!(production.scan_intervals_seconds, Some(600));
    assert_eq!(production.rate_limit_requests_per_minute, Some(30));
    assert_eq!(
        environment_settings("qa"),
        EnvironmentSettings {
            scan_intervals_seconds: None,
            max_cpu_percent: None,
            monitoring_enabled: None,
            rate_limit_requests_per_minute: None,
        }
    );

    assert_eq!(current_version(), "2.0");
    assert_eq!(config_version("1.0"), Ok(ConfigVersion::V1));
    assert_eq!(config_version("2.0"), Ok(ConfigVersion::V2));
    assert_eq!(config_version("3.1"), Err("3.1".to_string()));
}
