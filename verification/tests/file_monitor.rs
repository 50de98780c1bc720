use fortitude::file_monitor::{
    classify_debounced_event, glob_match, DebouncedOutcome, EventQueue, EventRateLimiter, EventType,
    FileEvent, FileMonitor, FileMonitorConfig, PathObservation,
};

#[test]
fn test_glob_matching() {
    assert!(glob_match("*.rs", "test.rs"));
    assert!(glob_match("*.rs", "src/main.rs"));
    assert!(!glob_match("*.rs", "test.py"));

    assert!(glob_match("target/*", "target/debug/app"));
    assert!(glob_match("target/*", "src/target/build"));
    assert!(!glob_match("target/*", "src/main.rs"));

    assert!(glob_match("*", "anything"));
    assert!(glob_match("test.txt", "test.txt"));
    assert!(!glob_match("test.txt", "other.txt"));
}

#[test]
fn file_monitor_test_config_should_analyze_file() {
    let config = FileMonitorConfig::for_rust_project();

    assert!(config.should_analyze_file("src/main.rs"));
    assert!(config.should_analyze_file("Cargo.toml"));
    assert!(config.should_analyze_file("README.md"));

    assert!(!config.should_analyze_file("target/debug/app"));
    assert!(!config.should_analyze_file(".git/HEAD"));
    assert!(!config.should_analyze_file("test.tmp"));
}

#[test]
fn test_event_priority() {
    let create_event = FileEvent::new("test.rs".to_string(), EventType::Create);
    assert_eq!(create_event.priority, 8);

    let write_event = FileEvent::new("test.rs".to_string(), EventType::Write);
    assert_eq!(write_event.priority, 6);

    let remove_event = FileEvent::new("test.rs".to_string(), EventType::Remove);
    assert_eq!(remove_event.priority, 4);
}

fn event(path: &str, event_type: EventType, priority: u8) -> FileEvent {
    FileEvent {
        path: path.to_string(),
        event_type,
        timestamp_nanos: 0,
        should_trigger_analysis: true,
        priority,
    }
}

#[test]
fn test_event_queue() {
    let mut queue = EventQueue::new(3);

    let high_event = event("test1.rs", EventType::Create, 9);
    let low_event = event("test2.rs", EventType::Remove, 3);

    assert!(queue.enqueue(low_event));
    assert!(queue.enqueue(high_event));

    // Should dequeue high priority event first
    let dequeued = queue.dequeue().unwrap();
    assert_eq!(dequeued.priority, 9);
}

#[test]
fn event_queue_evicts_oldest_low_then_normal_and_refuses_when_all_high() {
    let mut queue = EventQueue::new(2);
    assert!(queue.enqueue(event("low1", EventType::Other("x".to_string()), 3)));
    assert!(queue.enqueue(event("normal1", EventType::Write, 6)));
    assert_eq!(queue.total_size(), 2);
    // Full: the low event makes room.
    assert!(queue.enqueue(event("high1", EventType::Create, 8)));
    assert_eq!(queue.total_size(), 2);
    // Full again: the normal event makes room.
    assert!(queue.enqueue(event("high2", EventType::Create, 10)));
    assert_eq!(queue.total_size(), 2);
    // Full of high events: refused.
    assert!(!queue.enqueue(event("high3", EventType::Create, 8)));
    assert_eq!(queue.dequeue().unwrap().path, "high1");
    assert_eq!(queue.dequeue().unwrap().path, "high2");
    assert!(queue.dequeue().is_none());
}

#[test]
fn event_queue_lanes_are_fifo_and_ordered() {
    let mut queue = EventQueue::new(10);
    assert!(queue.enqueue(event("l", EventType::Rename, 2)));
    assert!(queue.enqueue(event("n1", EventType::Rename, 5)));
    assert!(queue.enqueue(event("n2", EventType::Rename, 7)));
    assert!(queue.enqueue(event("h", EventType::Rename, 8)));
    let order: Vec<String> = (0..4).map(|_| queue.dequeue().unwrap().path).collect();
    assert_eq!(order, vec!["h", "n1", "n2", "l"]);
}

#[test]
fn event_queue_zero_capacity_refuses() {
    let mut queue = EventQueue::new(0);
    assert!(!queue.enqueue(event("a", EventType::Create, 3)));
    assert_eq!(queue.total_size(), 0);
}

#[test]
fn file_monitor_test_rate_limiter() {
    let mut limiter = EventRateLimiter::new_at(2, 0);
    assert!(limiter.should_process_event_at(10));
    assert!(limiter.should_process_event_at(20));
    assert!(!limiter.should_process_event_at(30)); // Should be rate limited
    // A second later the count starts again.
    assert!(limiter.should_process_event_at(1_000_000_030));
    assert_eq!(limiter.event_count, 1);
    assert_eq!(limiter.last_reset_nanos, 1_000_000_030);
}

#[test]
fn rate_limiter_on_the_clock() {
    let mut limiter = EventRateLimiter::new(1);
    assert!(limiter.should_process_event());
}

#[test]
fn update_analysis_trigger_follows_config() {
    let config = FileMonitorConfig::for_rust_project();
    let mut e = FileEvent::new("target/debug/build.rs".to_string(), EventType::Write);
    assert!(e.should_trigger_analysis);
    e.update_analysis_trigger(&config);
    assert!(!e.should_trigger_analysis);
    let mut e = FileEvent::new_at("lib.rs".to_string(), EventType::Other("x".to_string()), 5);
    assert_eq!(e.priority, 3);
    assert_eq!(e.timestamp_nanos, 5);
    e.update_analysis_trigger(&config);
    assert!(e.should_trigger_analysis);
}

#[test]
fn config_builders_and_patterns() {
    let config = FileMonitorConfig::for_rust_project()
        .with_debounce_ms(10)
        .with_max_queue_size(7)
        .with_include_patterns(vec!["*".to_string()])
        .with_exclude_patterns(vec!["*.md".to_string()]);
    assert_eq!(config.debounce_ms, 10);
    assert_eq!(config.max_queue_size, 7);
    assert!(config.should_analyze_file("src/anything.txt"));
    assert!(!config.should_analyze_file("README.md"));
    assert!(!config.should_analyze_file("node_modules/x/y.js"));
    // No include pattern matches: not analysed.
    let none = FileMonitorConfig::for_rust_project().with_include_patterns(vec![]);
    assert!(!none.should_analyze_file("src/main.rs"));
    assert!(!config.should_analyze_with_parent("a.txt", Some("deps")));
    assert!(config.should_analyze_with_parent("a.txt", None));
}

#[test]
fn glob_edge_cases() {
    assert!(glob_match("*.", "anything"));
    assert!(glob_match("/*", "x"));
    assert!(!glob_match("*/.DS_Store", "dir/.DS_Store"));
    assert!(glob_match("*/.DS_Store", "*/.DS_Store"));
    assert!(glob_match("*.rs", ".rs"));
}

fn seen(path: &str, exists: bool, created_secs: Option<u64>) -> PathObservation {
    PathObservation { path: path.to_string(), exists, created_secs }
}

#[test]
fn debounced_events_are_classified_from_the_file_system() {
    assert_eq!(classify_debounced_event(false, Some(1), 100), EventType::Remove);
    assert_eq!(classify_debounced_event(true, Some(96), 100), EventType::Create);
    assert_eq!(classify_debounced_event(true, Some(95), 100), EventType::Write);
    assert_eq!(classify_debounced_event(true, None, 100), EventType::Write);
}

#[test]
fn monitor_processes_observed_events() {
    let config = FileMonitorConfig::for_rust_project().with_max_queue_size(2);
    let mut monitor = FileMonitor::new_at(config, 0);
    let outs = monitor.process_debounced_events_at(
        vec![
            seen("src/lib.rs", true, Some(99)),
            seen("notes.txt", true, None),
            seen("src/old.rs", false, None),
            seen("target/debug/x.rs", true, None),
        ],
        1,
        100,
    );
    assert_eq!(
        outs,
        vec![DebouncedOutcome::Enqueued, DebouncedOutcome::Ignored, DebouncedOutcome::Enqueued, DebouncedOutcome::Ignored]
    );
    assert_eq!(monitor.get_queue_stats(), (2, 2));
    let first = monitor.next_event().unwrap();
    assert_eq!(first.path, "src/lib.rs");
    assert_eq!(first.event_type, EventType::Create);
    assert_eq!(first.priority, 8);
    let second = monitor.next_event().unwrap();
    assert_eq!(second.event_type, EventType::Remove);
    assert!(monitor.next_event().is_none());
}

#[test]
fn monitor_drops_events_over_the_rate_limit_and_when_full_of_high_events() {
    let mut config = FileMonitorConfig::for_rust_project().with_max_queue_size(1);
    config.max_events_per_second = 2;
    let mut monitor = FileMonitor::new_at(config, 0);
    let outs = monitor.process_debounced_events_at(
        vec![seen("a.rs", true, Some(100)), seen("b.rs", true, Some(100)), seen("c.rs", true, Some(100))],
        10,
        100,
    );
    assert_eq!(outs, vec![DebouncedOutcome::Enqueued, DebouncedOutcome::QueueFull, DebouncedOutcome::RateLimited]);
    // A second later the limiter counts afresh.
    let outs = monitor.process_debounced_events_at(vec![seen("d.rs", false, None)], 1_000_000_010, 101);
    assert_eq!(outs, vec![DebouncedOutcome::QueueFull]);
}

#[test]
fn more_exclusions_select_fewer_files() {
    let base = FileMonitorConfig::for_rust_project();
    let mut more = base.exclude_patterns.clone();
    more.push("*.md".to_string());
    let stricter = FileMonitorConfig::for_rust_project().with_exclude_patterns(more);
    for path in ["src/main.rs", "Cargo.toml", "README.md", "target/debug/app", "docs/guide.md", "test.tmp"] {
        if stricter.should_analyze_file(path) {
            assert!(base.should_analyze_file(path));
        }
    }
    assert!(base.should_analyze_file("README.md"));
    assert!(!stricter.should_analyze_file("README.md"));
    assert!(stricter.should_analyze_file("src/main.rs"));
}
