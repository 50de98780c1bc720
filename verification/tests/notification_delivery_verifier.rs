use fortitude::notification_delivery_verifier::{
    calculate_overall_status, channel_details_string, channel_type_name, matches_channel_type,
    status_after_delivery, verify_api_endpoint, verify_file_contents, ChannelVerificationRules,
    DeliveryAttempt, DeliveryStatus, DeliveryTiming, DeliveryVerificationConfig,
    DeliveryVerificationError, NotificationDeliveryVerifier, OverallDeliveryStatus,
};
use fortitude::notification_system::{
    Notification, NotificationChannel, NotificationSystemError, NotificationType,
};
use std::collections::HashMap;

fn attempt(status: DeliveryStatus) -> DeliveryAttempt {
    let mut a = DeliveryAttempt::new_at("a".to_string(), "n".to_string(), &NotificationChannel::CLI, 0);
    a.status = status;
    a
}

fn delivered() -> DeliveryStatus {
    DeliveryStatus::Delivered { completed_at_nanos: 1, delivery_time_nanos: 2, verification_details: HashMap::new() }
}

fn failed() -> DeliveryStatus {
    DeliveryStatus::Failed { failed_at_nanos: 1, error_message: "e".to_string(), error_type: "t".to_string(), retry_count: 0 }
}

fn pending() -> DeliveryStatus {
    DeliveryStatus::Pending { started_at_nanos: 0 }
}

#[test]
fn overall_status_cases() {
    assert_eq!(calculate_overall_status(&vec![]), OverallDeliveryStatus::FullyDelivered);
    assert_eq!(calculate_overall_status(&vec![attempt(delivered()), attempt(delivered())]), OverallDeliveryStatus::FullyDelivered);
    assert_eq!(calculate_overall_status(&vec![attempt(delivered()), attempt(pending())]), OverallDeliveryStatus::PartiallyDelivered);
    assert_eq!(calculate_overall_status(&vec![attempt(delivered()), attempt(failed())]), OverallDeliveryStatus::Mixed);
    assert_eq!(
        calculate_overall_status(&vec![attempt(delivered()), attempt(failed()), attempt(pending())]),
        OverallDeliveryStatus::PartiallyDelivered
    );
    assert_eq!(calculate_overall_status(&vec![attempt(failed()), attempt(pending())]), OverallDeliveryStatus::Failed);
    assert_eq!(
        calculate_overall_status(&vec![attempt(pending()), attempt(DeliveryStatus::Retrying { retry_at_nanos: 0, attempt_number: 1, last_error: "x".to_string() })]),
        OverallDeliveryStatus::AllPending
    );
}

#[test]
fn channel_names() {
    let file = NotificationChannel::File { path: "/tmp/x.log".to_string() };
    let api = NotificationChannel::API { endpoint: "http://h/n".to_string() };
    assert_eq!(channel_type_name(&NotificationChannel::CLI), "CLI");
    assert_eq!(channel_type_name(&file), "File");
    assert_eq!(channel_details_string(&file), "file:///tmp/x.log");
    assert_eq!(channel_details_string(&api), "http://h/n");
    assert_eq!(channel_details_string(&NotificationChannel::CLI), "stdout/stderr");
    assert!(matches_channel_type(&api, "API"));
    assert!(!matches_channel_type(&api, "File"));
    let a = DeliveryAttempt::new_at("x".to_string(), "n1".to_string(), &file, 9);
    assert_eq!(a.channel_type, "File");
    assert_eq!(a.started_at_nanos, 9);
}

#[test]
fn api_verification() {
    let mock = verify_api_endpoint("http://mock.local/x");
    assert!(!mock.verification_successful);
    assert_eq!(mock.api_response_code, Some(404));
    assert_eq!(mock.error_details.as_deref(), Some("Mock endpoint - no actual delivery"));
    let real = verify_api_endpoint("https://example.com/hook");
    assert!(real.verification_successful);
    assert_eq!(real.api_response_code, Some(200));
    assert!(verify_api_endpoint("http://invalid/").api_response_code == Some(404));
}

#[test]
fn file_verification() {
    let ok = verify_file_contents(true, true, Some("[..] INFO Title: Body"), "Title", "Body");
    assert!(ok.verification_successful && ok.content_matches && ok.error_details.is_none());
    let missing = verify_file_contents(false, true, None, "Title", "Body");
    assert!(!missing.verification_successful);
    assert_eq!(missing.error_details.as_deref(), Some("File does not exist"));
    let wrong = verify_file_contents(true, true, Some("other"), "Title", "Body");
    assert!(!wrong.verification_successful);
    assert_eq!(wrong.error_details.as_deref(), Some("File content does not match notification"));
    let unchecked = verify_file_contents(true, false, None, "Title", "Body");
    assert!(unchecked.verification_successful && !unchecked.content_matches);
}

#[test]
fn timing_statistics() {
    let mut t = DeliveryTiming::new();
    t.record(100, true);
    t.record(300, false);
    assert_eq!(t.total_deliveries, 2);
    assert_eq!(t.successful_deliveries, 1);
    assert_eq!(t.failed_deliveries, 1);
    assert_eq!(t.average_delivery_time_nanos, 200);
    assert_eq!(t.min_delivery_time_nanos, 100);
    assert_eq!(t.max_delivery_time_nanos, 300);
}

#[test]
fn statuses_after_delivery() {
    let ok: Result<(), NotificationSystemError> = Ok(());
    assert!(matches!(status_after_delivery(&ok, String::new(), String::new(), 3, 50), DeliveryStatus::Delivered { completed_at_nanos: 3, delivery_time_nanos: 50, .. }));
    let err: Result<(), NotificationSystemError> = Err(NotificationSystemError::NotInitialized);
    match status_after_delivery(&err, "m".to_string(), "t".to_string(), 4, 50) {
        DeliveryStatus::Failed { failed_at_nanos, error_message, error_type, retry_count } => {
            assert_eq!((failed_at_nanos, error_message.as_str(), error_type.as_str(), retry_count), (4, "m", "t", 0));
        }
        _ => panic!("expected a failure"),
    }
}

#[test]
fn verification_defaults() {
    let c = DeliveryVerificationConfig::default();
    assert_eq!(c.audit_retention_days, 30);
    assert_eq!(c.verification_timeout_ms, 10_000);
    let r = ChannelVerificationRules::default();
    assert!(r.verify_content && r.verify_timing && r.verify_format);
}

fn two_channel_notification() -> Notification {
    Notification::new_at(
        "n1".to_string(),
        NotificationType::Info,
        "Title".to_string(),
        "Body".to_string(),
        vec![NotificationChannel::CLI, NotificationChannel::File { path: "out.log".to_string() }],
        5,
    )
}

#[test]
fn tracker_records_attempts_and_results() {
    let mut v = NotificationDeliveryVerifier::new(DeliveryVerificationConfig::default());
    assert!(!v.running());
    assert_eq!(v.start(), (true, true));
    assert!(v.running());
    assert_eq!(v.start(), (false, false));
    let n = two_channel_notification();
    v.track_delivery_attempt_at(&n, 10).unwrap();
    let st = v.get_delivery_status("n1").unwrap();
    assert_eq!(st.attempts.len(), 2);
    assert_eq!(st.attempts[0].channel_type, "CLI");
    assert_eq!(st.attempts[1].channel_details, "file://out.log");
    assert_eq!(st.overall_status, OverallDeliveryStatus::AllPending);

    v.update_delivery_status_at("n1", &NotificationChannel::CLI, Ok(()), 20).unwrap();
    assert_eq!(v.get_delivery_status("n1").unwrap().overall_status, OverallDeliveryStatus::PartiallyDelivered);
    let err = NotificationSystemError::FileIo { path: "out.log".to_string(), error: "denied".to_string() };
    v.update_delivery_status_at("n1", &NotificationChannel::File { path: "out.log".to_string() }, Err(err), 30).unwrap();
    let st = v.get_delivery_status("n1").unwrap();
    assert_eq!(st.overall_status, OverallDeliveryStatus::Mixed);
    assert_eq!(st.last_updated_nanos, 30);
    match &st.attempts[1].status {
        DeliveryStatus::Failed { error_message, error_type, failed_at_nanos, .. } => {
            assert_eq!(error_message, "File I/O error: out.log - denied");
            assert_eq!(error_type, "FileIo { path: \"out.log\", error: \"denied\" }");
            assert_eq!(*failed_at_nanos, 30);
        }
        other => panic!("unexpected status {:?}", other),
    }

    let m = v.get_performance_metrics().unwrap();
    assert_eq!((m.total_deliveries, m.successful_deliveries, m.failed_deliveries), (2, 1, 1));
    assert_eq!(m.average_delivery_time_nanos, 50_000_000);
    let cli = v.get_channel_performance_metrics("CLI").unwrap();
    assert_eq!((cli.total_deliveries, cli.last_delivery_nanos), (1, Some(20)));
    assert!(v.get_channel_performance_metrics("SMS").is_err());

    let trail = v.get_audit_trail("n1").unwrap();
    let kinds: Vec<&str> = trail.iter().map(|e| e.event_type.as_str()).collect();
    assert_eq!(kinds, vec!["delivery_attempted", "delivery_completed", "delivery_failed"]);
    assert_eq!(trail[2].error_message.as_deref(), Some("File I/O error: out.log - denied"));
    assert_eq!(v.get_audit_trail_by_time_range(15, 25).unwrap().len(), 1);
    v.retain_audit_entries_after(20);
    assert_eq!(v.get_audit_trail("n1").unwrap().len(), 1);
    assert!(v.stop());
    assert!(!v.stop());
}

#[test]
fn unknown_notifications_and_disabled_tracking() {
    let mut v = NotificationDeliveryVerifier::new(DeliveryVerificationConfig::default());
    assert_eq!(
        v.get_delivery_status("nope").unwrap_err(),
        DeliveryVerificationError::DeliveryStatusNotFound { notification_id: "nope".to_string() }
    );
    v.update_delivery_status_at("nope", &NotificationChannel::CLI, Ok(()), 1).unwrap();
    assert_eq!(v.get_performance_metrics().unwrap().total_deliveries, 1);

    let config = DeliveryVerificationConfig { enable_delivery_tracking: false, ..DeliveryVerificationConfig::default() };
    let mut off = NotificationDeliveryVerifier::new(config);
    off.track_delivery_attempt_at(&two_channel_notification(), 1).unwrap();
    assert!(off.get_delivery_status("n1").is_err());
    assert!(off.get_audit_trail("n1").unwrap().is_empty());
}

#[test]
fn system_error_messages() {
    let e = NotificationSystemError::HttpEndpoint { endpoint: "http://x".to_string(), status: Some(404), error: "gone".to_string() };
    assert_eq!(e.to_string(), "HTTP endpoint error: http://x - status: Some(404), error: gone");
    let e = NotificationSystemError::RateLimitExceeded { channel: "cli".to_string(), current: 3, limit: 2 };
    assert_eq!(e.to_string(), "Rate limit exceeded for channel: cli - 3/2 notifications");
    assert_eq!(NotificationSystemError::NotInitialized.to_string(), "Notification system not initialized");
}

#[test]
fn system_error_debug_renderings() {
    let e = NotificationSystemError::HttpEndpoint { endpoint: "http://x".to_string(), status: Some(404), error: "gone".to_string() };
    assert_eq!(e.debug_text(), format!("{:?}", e));
    assert_eq!(e.debug_text(), "HttpEndpoint { endpoint: \"http://x\", status: Some(404), error: \"gone\" }");
    let e = NotificationSystemError::HttpEndpoint { endpoint: "h".to_string(), status: None, error: "say \"hi\"\n".to_string() };
    assert_eq!(e.debug_text(), "HttpEndpoint { endpoint: \"h\", status: None, error: \"say \\\"hi\\\"\\n\" }");
    assert_eq!(e.debug_text(), format!("{:?}", e));
    let e = NotificationSystemError::RateLimitExceeded { channel: "cli".to_string(), current: 3, limit: 2 };
    assert_eq!(e.debug_text(), "RateLimitExceeded { channel: \"cli\", current: 3, limit: 2 }");
    let e = NotificationSystemError::ChannelDeliveryFailed { channel: "api".to_string(), message: "m".to_string(), retry_count: 7 };
    assert_eq!(e.debug_text(), "ChannelDeliveryFailed { channel: \"api\", message: \"m\", retry_count: 7 }");
    let e = NotificationSystemError::InvalidConfiguration { field: "f".to_string(), reason: "r".to_string() };
    assert_eq!(e.debug_text(), format!("{:?}", e));
    let e = NotificationSystemError::FormattingError { notification_type: "info".to_string(), error: "bad".to_string() };
    assert_eq!(e.debug_text(), format!("{:?}", e));
    let e = NotificationSystemError::ChannelNotConfigured { channel: "file".to_string() };
    assert_eq!(e.debug_text(), "ChannelNotConfigured { channel: \"file\" }");
    assert_eq!(NotificationSystemError::NotInitialized.debug_text(), "NotInitialized");
}
