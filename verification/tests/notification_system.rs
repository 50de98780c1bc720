use fortitude::notification_system::{
    format_cli_notification, format_file_notification, rate_limit_error, route_notification,
    ChannelMetrics, ChannelRateLimiter, Notification, NotificationBuffer, NotificationChannel,
    NotificationChannelConfig, NotificationMetrics, NotificationSystemConfig,
    NotificationSystem, NotificationSystemError, NotificationType,
};
use std::collections::HashMap;

fn note(t: NotificationType, title: &str, message: &str) -> Notification {
    Notification::new_at("id".to_string(), t, title.to_string(), message.to_string(), vec![NotificationChannel::CLI], 0)
}

#[test]
fn test_notification_creation() {
    let n = Notification::new(
        NotificationType::Info,
        "Test Title".to_string(),
        "Test message".to_string(),
        vec![NotificationChannel::CLI],
    );
    assert_eq!(n.notification_type, NotificationType::Info);
    assert_eq!(n.title, "Test Title");
    assert_eq!(n.message, "Test message");
    assert_eq!(n.channels.len(), 1);
    assert!(n.source_component.is_none());
    assert!(!n.id.is_empty());
}

#[test]
fn test_notification_with_metadata() {
    let mut metadata = HashMap::new();
    metadata.insert("key1".to_string(), "value1".to_string());
    metadata.insert("key2".to_string(), "value2".to_string());
    let n = note(NotificationType::Info, "Test", "Message")
        .with_source("test_component".to_string())
        .with_metadata(metadata);
    assert_eq!(n.source_component, Some("test_component".to_string()));
    assert_eq!(n.metadata.len(), 2);
}

#[test]
fn test_notification_type_display() {
    assert_eq!(NotificationType::Info.to_string(), "INFO");
    assert_eq!(NotificationType::Warning.to_string(), "WARN");
    assert_eq!(NotificationType::Error.to_string(), "ERROR");
    assert_eq!(NotificationType::Success.to_string(), "SUCCESS");
    assert_eq!(NotificationType::Debug.to_string(), "DEBUG");
    assert_eq!(NotificationType::Progress { current: 25, total: 100 }.to_string(), "PROGRESS(25/100)");
}

#[test]
fn test_channel_display() {
    assert_eq!(NotificationChannel::CLI.to_string(), "CLI");
    assert_eq!(
        NotificationChannel::File { path: "/tmp/test.log".to_string() }.to_string(),
        "File(/tmp/test.log)"
    );
    assert_eq!(
        NotificationChannel::API { endpoint: "http://localhost:8080/notifications".to_string() }.to_string(),
        "API(http://localhost:8080/notifications)"
    );
}

#[test]
fn test_channel_key_generation() {
    assert_eq!(NotificationChannel::CLI.channel_key(), "cli");
    assert_eq!(NotificationChannel::File { path: "/tmp/test.log".to_string() }.channel_key(), "file");
    assert_eq!(NotificationChannel::API { endpoint: "http://localhost:8080/notifications".to_string() }.channel_key(), "api");
}

#[test]
fn notification_system_test_rate_limiter() {
    let mut limiter = ChannelRateLimiter::new_at(2, 0);
    assert!(limiter.can_send_at(1));
    assert!(limiter.can_send_at(2));
    assert!(!limiter.can_send_at(3));
    assert_eq!(
        rate_limit_error("cli".to_string(), &limiter),
        NotificationSystemError::RateLimitExceeded { channel: "cli".to_string(), current: 2, limit: 2 }
    );
    // A minute later a new window begins.
    assert!(limiter.can_send_at(60_000_000_000));
    assert_eq!(limiter.count, 1);
    assert_eq!(limiter.window_start_nanos, 60_000_000_000);
}

#[test]
fn test_cli_notification_formatting() {
    let n = note(NotificationType::Info, "Test Title", "Test message").with_source("test_component".to_string());
    let formatted = format_cli_notification(&n, 0);
    assert!(formatted.contains("Test Title"));
    assert!(formatted.contains("Test message"));
    assert!(formatted.contains("test_component"));
    assert!(formatted.contains("INFO"));
    assert!(formatted.starts_with("\x1b[36m"));
    assert!(formatted.ends_with("\x1b[0m"));
    assert_eq!(
        formatted,
        "\x1b[36m[1970-01-01 00:00:00 UTC] INFO [test_component] Test Title: Test message\x1b[0m"
    );
}

#[test]
fn test_file_notification_formatting() {
    let n = note(NotificationType::Warning, "Test Title", "Test message").with_source("test_component".to_string());
    let formatted = format_file_notification(&n, 0);
    assert!(formatted.contains("Test Title"));
    assert!(formatted.contains("Test message"));
    assert!(formatted.contains("test_component"));
    assert!(formatted.contains("WARN"));
    assert!(!formatted.contains("\x1b["));
    assert_eq!(formatted, "[1970-01-01 00:00:00 UTC] WARN [test_component] Test Title: Test message");
}

#[test]
fn test_progress_notification_formatting() {
    let n = note(NotificationType::Progress { current: 50, total: 100 }, "Processing", "Items processed");
    let formatted = format_file_notification(&n, 50);
    assert!(formatted.contains("PROGRESS(50/100)"));
    assert!(formatted.contains("50%"));
    assert_eq!(
        formatted,
        "[1970-01-01 00:00:00 UTC] PROGRESS(50/100) [system] Processing: Items processed (50/100 - 50%)"
    );
    let cli = format_cli_notification(&n, 50);
    assert!(cli.starts_with("\x1b[34m"));
}

#[test]
fn test_send_notification_not_initialized() {
    let mut buffer = NotificationBuffer::new(10);
    let r = route_notification(false, false, &mut buffer, note(NotificationType::Info, "Test", "Message"));
    assert_eq!(r.unwrap_err(), NotificationSystemError::NotInitialized);

    let mut system = NotificationSystem::new_at(NotificationSystemConfig::default(), 0);
    let result = system.send_at(note(NotificationType::Info, "Test", "Message"), 1);
    assert!(matches!(result.unwrap_err(), NotificationSystemError::NotInitialized));
}

#[test]
fn test_notification_system_start_stop() {
    let mut system = NotificationSystem::new_at(NotificationSystemConfig::default(), 0);
    assert!(!system.start_at(0));
    assert!(!system.start_at(0));
    let out = system.send_at(note(NotificationType::Warning, "T", "M"), 1).unwrap();
    assert_eq!(out.len(), 1);
    assert_eq!(system.get_metrics().total_notifications, 1);
    assert_eq!(system.get_metrics().notifications_by_type.get("WARN"), 1);
    assert!(system.stop().unwrap().is_empty());
    assert!(system.send_at(note(NotificationType::Info, "T", "M"), 2).is_err());
}

#[test]
fn notification_system_limits_each_channel() {
    let mut config = NotificationSystemConfig::default();
    config.channel_configs[0].1.rate_limit_per_minute = Some(2);
    config.channel_configs[1].1.rate_limit_per_minute = None;
    let mut system = NotificationSystem::new_at(config, 0);
    system.start_at(0);
    assert!(system.check_rate_limit_at(&NotificationChannel::CLI, 1).is_ok());
    assert!(system.check_rate_limit_at(&NotificationChannel::CLI, 2).is_ok());
    assert_eq!(
        system.check_rate_limit_at(&NotificationChannel::CLI, 3),
        Err(NotificationSystemError::RateLimitExceeded { channel: "cli".to_string(), current: 2, limit: 2 })
    );
    // A new minute opens a new window.
    assert!(system.check_rate_limit_at(&NotificationChannel::CLI, 60_000_000_003).is_ok());
    let file = NotificationChannel::File { path: "x.log".to_string() };
    for t in 0..100 {
        assert!(system.check_rate_limit_at(&file, t).is_ok());
    }
}

#[test]
fn notification_system_batches() {
    let mut config = NotificationSystemConfig::default();
    config.batch_delivery = true;
    config.batch_size = 2;
    let mut system = NotificationSystem::new_at(config, 0);
    assert!(system.start_at(0));
    assert!(system.send_at(note(NotificationType::Info, "a", "m"), 1).unwrap().is_empty());
    let batch = system.send_at(note(NotificationType::Info, "b", "m"), 2).unwrap();
    let titles: Vec<&str> = batch.iter().map(|n| n.title.as_str()).collect();
    assert_eq!(titles, vec!["a", "b"]);
    assert!(system.send_at(note(NotificationType::Info, "c", "m"), 3).unwrap().is_empty());
    let rest = system.stop().unwrap();
    assert_eq!(rest.len(), 1);
    assert_eq!(rest[0].title, "c");
    let n = system.notification_of(NotificationType::Success, "t".to_string(), "m".to_string());
    assert_eq!(n.channels, vec![NotificationChannel::CLI]);
}

#[test]
fn test_error_display() {
    let error = NotificationSystemError::ChannelDeliveryFailed {
        channel: "test_channel".to_string(),
        message: "test error".to_string(),
        retry_count: 3,
    };
    let error_string = error.to_string();
    assert!(error_string.contains("Channel delivery failed"));
    assert!(error_string.contains("test_channel"));
    assert!(error_string.contains("test error"));
}

#[test]
fn batch_routing() {
    let mut buffer = NotificationBuffer::new(2);
    let now = route_notification(true, false, &mut buffer, note(NotificationType::Info, "a", "m")).unwrap();
    assert_eq!(now.len(), 1);
    let first = route_notification(true, true, &mut buffer, note(NotificationType::Info, "b", "m")).unwrap();
    assert!(first.is_empty());
    let batch = route_notification(true, true, &mut buffer, note(NotificationType::Info, "c", "m")).unwrap();
    assert_eq!(batch.iter().map(|n| n.title.as_str()).collect::<Vec<_>>(), vec!["b", "c"]);
    assert!(buffer.drain().is_empty());
}

#[test]
fn test_notification_metrics() {
    let mut metrics = NotificationMetrics::new_at(0);
    metrics.record_at(NotificationType::Info, 1);
    metrics.record_at(NotificationType::Info, 2);
    metrics.record_at(NotificationType::Progress { current: 1, total: 2 }, 3);
    assert_eq!(metrics.total_notifications, 3);
    assert_eq!(metrics.notifications_by_type.get("INFO"), 2);
    assert_eq!(metrics.notifications_by_type.get("PROGRESS(1/2)"), 1);
    assert_eq!(metrics.notifications_by_type.get("WARN"), 0);
    assert_eq!(metrics.last_updated_nanos, 3);
}

#[test]
fn channel_metrics_counting() {
    let mut m = ChannelMetrics::default();
    m.record_success_at(5);
    m.record_failure();
    assert_eq!(m.total_sent, 2);
    assert_eq!(m.successful_deliveries, 1);
    assert_eq!(m.failed_deliveries, 1);
    assert_eq!(m.last_delivery_nanos, Some(5));
}

#[test]
fn configuration_defaults() {
    let c = NotificationChannelConfig::default();
    assert!(c.enabled);
    assert_eq!(c.rate_limit_per_minute, Some(60));
    assert_eq!(c.retry_count, 3);
    let s = NotificationSystemConfig::default();
    assert_eq!(s.channel_configs.len(), 3);
    assert_eq!(s.channel_configs[1].0, "file");
    assert_eq!(s.default_channels, vec![NotificationChannel::CLI]);
    assert_eq!(s.batch_size, 10);
    assert!(!s.batch_delivery);
}

#[test]
fn notification_system_counts_deliveries_per_channel() {
    let mut system = NotificationSystem::new_at(NotificationSystemConfig::default(), 0);
    assert!(system.get_channel_metrics("cli").is_none());
    system.record_delivery_at(&NotificationChannel::CLI, true, 5);
    system.record_delivery_at(&NotificationChannel::CLI, false, 6);
    let m = system.get_channel_metrics("cli").unwrap();
    assert_eq!((m.total_sent, m.successful_deliveries, m.failed_deliveries), (2, 1, 1));
    assert_eq!(m.last_delivery_nanos, Some(5));
    assert!(system.get_channel_metrics("file").is_none());
    assert!(system.get_channel_metrics("sms").is_none());
}

#[test]
fn test_notification_system_creation() {
    let config = NotificationSystemConfig::default();
    let system = NotificationSystem::new_at(config.clone(), 0);

    assert_eq!(system.config().default_channels, config.default_channels);
    assert_eq!(system.config().buffer_size, config.buffer_size);
}

#[test]
fn batch_buffer_flushes_on_demand() {
    let mut config = NotificationSystemConfig::default();
    config.batch_delivery = true;
    config.batch_size = 3;
    let mut system = NotificationSystem::new_at(config, 0);
    assert!(!system.running());
    assert!(system.start_at(0));
    assert!(system.running());
    assert!(system.send_at(note(NotificationType::Info, "a", "1"), 1).unwrap().is_empty());
    assert!(system.send_at(note(NotificationType::Info, "b", "2"), 2).unwrap().is_empty());
    let flushed = system.flush_buffer();
    assert_eq!(flushed.len(), 2);
    assert_eq!(flushed[0].title, "a");
    assert!(system.flush_buffer().is_empty());
    assert_eq!(system.get_metrics().total_notifications, 2);
}
