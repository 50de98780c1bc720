use fortitude::manager::{
    ManagerSettings, ProactiveEventType, ProactiveManager, ProactiveManagerError,
};
use fortitude::text::{parse_bool, parse_unsigned};

fn settings() -> ManagerSettings {
    ManagerSettings { max_concurrent_tasks: 3, auto_persist: false }
}

#[test]
fn manager_start_stop_cycle() {
    let mut m = ProactiveManager::new(settings());
    assert_eq!(m.check_can_stop(), Err(ProactiveManagerError::NotRunning));
    m.check_can_start().unwrap();
    m.mark_started_at(1_000);
    assert_eq!(m.check_can_start(), Err(ProactiveManagerError::AlreadyRunning));
    let st = m.get_status_at(None, 5_000).unwrap();
    assert!(st.is_running);
    assert_eq!(st.started_at_nanos, Some(1_000));
    assert_eq!(st.uptime_nanos, Some(4_000));
    assert_eq!(st.recent_activity.len(), 1);
    assert_eq!(st.recent_activity[0].event_type, ProactiveEventType::SystemStarted);
    assert_eq!(st.config_summary.max_concurrent_tasks, 3);
    assert_eq!(st.config_summary.notification_channels, vec!["console".to_string()]);
    m.check_can_stop().unwrap();
    m.mark_stopped_at(6_000);
    let st = m.get_status_at(None, 7_000).unwrap();
    assert!(!st.is_running);
    assert_eq!(st.uptime_nanos, None);
    assert_eq!(st.recent_activity[0].event_type, ProactiveEventType::SystemStopped);
    assert_eq!(st.recent_activity[1].event_type, ProactiveEventType::SystemStarted);
    let since = m.get_status_at(Some(5_000), 7_000).unwrap();
    assert_eq!(since.recent_activity.len(), 1);
}

#[test]
fn manager_settings_are_validated() {
    let mut m = ProactiveManager::new(settings());
    assert_eq!(m.set_config_at("max_tasks", "8", 1), Ok(false));
    assert_eq!(m.get_config("max_tasks").unwrap(), "8");
    assert_eq!(m.set_config_at("auto_persist", "true", 2), Ok(true));
    assert_eq!(m.get_config("auto_persist").unwrap(), "true");
    assert_eq!(m.set_config_at("gap_interval", "+60", 3), Ok(true));
    assert_eq!(m.get_config("gap_interval").unwrap(), "30");
    for (k, v) in [("max_tasks", "0"), ("max_tasks", "51"), ("gap_interval", "1441"), ("debounce", "301"), ("debounce", " 3"), ("auto_persist", "yes"), ("colour", "red")] {
        assert_eq!(
            m.set_config_at(k, v, 4),
            Err(ProactiveManagerError::InvalidConfigValue { key: k.to_string(), value: v.to_string() })
        );
    }
    assert_eq!(m.set_config_at("debounce", "300", 5), Ok(true));
    assert_eq!(
        m.get_config("colour"),
        Err(ProactiveManagerError::InvalidConfigValue { key: "colour".to_string(), value: "unknown key".to_string() })
    );
    let listed = m.list_config().unwrap();
    assert_eq!(
        listed,
        vec![
            ("gap_interval".to_string(), "30".to_string()),
            ("max_tasks".to_string(), "8".to_string()),
            ("debounce".to_string(), "5".to_string()),
            ("auto_persist".to_string(), "true".to_string()),
        ]
    );
    let st = m.get_status_at(None, 10).unwrap();
    assert_eq!(st.recent_activity[0].description, "Configuration changed: debounce = 300");
    assert_eq!(m.reset_config_at(settings(), 11), Ok(false));
    assert_eq!(m.get_config("max_tasks").unwrap(), "3");
}

#[test]
fn event_history_is_bounded() {
    let mut m = ProactiveManager::new(settings());
    for i in 0..1005 {
        m.log_event_at(ProactiveEventType::GapDetected, format!("gap {i}"), None, None, i);
    }
    let st = m.get_status_at(Some(0), 2_000).unwrap();
    assert_eq!(st.recent_activity.len(), 1000);
    assert_eq!(st.recent_activity[0].description, "gap 5");
    let latest = m.get_status_at(None, 2_000).unwrap();
    assert_eq!(latest.recent_activity.len(), 10);
    assert_eq!(latest.recent_activity[0].description, "gap 1004");
}

#[test]
fn unsigned_and_bool_text() {
    assert_eq!(parse_unsigned("42", u64::MAX), Some(42));
    assert_eq!(parse_unsigned("+7", u64::MAX), Some(7));
    assert_eq!(parse_unsigned("007", u64::MAX), Some(7));
    assert_eq!(parse_unsigned("", u64::MAX), None);
    assert_eq!(parse_unsigned("+", u64::MAX), None);
    assert_eq!(parse_unsigned("-1", u64::MAX), None);
    assert_eq!(parse_unsigned("18446744073709551615", u64::MAX), Some(u64::MAX));
    assert_eq!(parse_unsigned("18446744073709551616", u64::MAX), None);
    assert_eq!(parse_unsigned("300", 255), None);
    assert_eq!(parse_bool("true"), Some(true));
    assert_eq!(parse_bool("false"), Some(false));
    assert_eq!(parse_bool("True"), None);
}

#[test]
fn loading_settings_logs_nothing() {
    let mut m = ProactiveManager::new(settings());
    m.mark_started_at(10);
    assert_eq!(m.history_len(), 1);
    m.load_config(ManagerSettings { max_concurrent_tasks: 9, auto_persist: true });
    assert_eq!(m.history_len(), 1);
    assert_eq!(m.settings(), ManagerSettings { max_concurrent_tasks: 9, auto_persist: true });
    assert_eq!(m.get_config("max_tasks").unwrap(), "9");
}
