use fortitude::background_scheduler::{
    BackgroundScheduler,
    generate_research_query, BackgroundSchedulerConfig, ResearchTask, SchedulerError, TaskEnhancement, TaskGap,
    TaskPriority, TaskQueue, TaskState,
};
use fortitude::gap_analyzer::{DetectedGap, GapType};

fn create_test_gap() -> DetectedGap {
    DetectedGap::new(
        GapType::TodoComment,
        "test.rs".to_string(),
        10,
        "// TODO: test".to_string(),
        "test".to_string(),
        90,
    )
}

#[test]
fn test_task_creation() {
    let gap = create_test_gap();
    let task = ResearchTask::from_gap(gap, TaskPriority::High);
    assert_eq!(task.gap.confidence_percent, 90);
    assert_eq!(task.gap.context, "// TODO: test");
    assert_eq!(task.gap.priority, 7);
    assert_eq!(task.research_query, "Research implementation approach for TODO: test in file test.rs");

    assert_eq!(task.gap.gap_type, GapType::TodoComment);
    assert_eq!(task.priority, TaskPriority::High);
    assert_eq!(task.state, TaskState::Pending);
    assert_eq!(task.retry_count, 0);
    assert!(!task.research_query.is_empty());
    assert_eq!(task.id.len(), 36);
}

fn task_at(priority: TaskPriority, created: i64, id: &str) -> ResearchTask {
    ResearchTask::from_gap_at(TaskGap::from_detected(&create_test_gap()), priority, id.to_string(), created)
}

#[test]
fn test_priority_ordering() {
    let mut queue = TaskQueue::new(10);
    queue.enqueue(task_at(TaskPriority::Low, 1, "low")).unwrap();
    queue.enqueue(task_at(TaskPriority::High, 2, "high")).unwrap();
    queue.enqueue(task_at(TaskPriority::Medium, 3, "medium")).unwrap();
    let first = queue.dequeue().unwrap();
    assert_eq!(first.priority, TaskPriority::High);
    assert_eq!(first.id, "high");
}

#[test]
fn test_scheduler_basic_operations() {
    let config = BackgroundSchedulerConfig {
        queue_file: "test_queue.json".to_string(),
        max_queue_size: 10,
        persistence_interval_ms: 60_000,
        max_concurrent_tasks: 2,
        default_timeout_ms: 30_000,
    };
    let mut scheduler = BackgroundScheduler::new(config);
    let task = ResearchTask::from_gap(create_test_gap(), TaskPriority::Medium);
    let task_id = task.id.clone();
    scheduler.enqueue(task).unwrap();
    assert_eq!(scheduler.queue_size(), 1);

    let peeked = scheduler.peek().unwrap();
    assert!(peeked.is_some());
    assert_eq!(peeked.unwrap().id, task_id);
    assert_eq!(scheduler.queue_size(), 1);

    let dequeued = scheduler.dequeue().unwrap();
    assert!(dequeued.is_some());
    assert_eq!(dequeued.unwrap().id, task_id);
    assert_eq!(scheduler.queue_size(), 0);
}

fn small_config(max_queue_size: usize) -> BackgroundSchedulerConfig {
    BackgroundSchedulerConfig {
        queue_file: "q.json".to_string(),
        max_queue_size,
        persistence_interval_ms: 1_000,
        max_concurrent_tasks: 2,
        default_timeout_ms: 30_000,
    }
}

#[test]
fn scheduler_moves_tasks_between_collections() {
    let mut s = BackgroundScheduler::new(small_config(4));
    let mut t = task_at(TaskPriority::High, 5, "t1");
    t.state = TaskState::Executing;
    s.update_task_at(t.clone(), 100).unwrap();
    let found = s.get_task_by_id("t1").unwrap().unwrap();
    assert_eq!(found.state, TaskState::Executing);
    assert_eq!(s.get_metrics().executing_tasks, 1);

    t.state = TaskState::Completed;
    s.update_task_at(t.clone(), 777).unwrap();
    let found = s.get_task_by_id("t1").unwrap().unwrap();
    assert_eq!(found.state, TaskState::Completed);
    assert_eq!(found.completed_at_nanos, Some(777));
    let m = s.get_metrics();
    assert_eq!((m.executing_tasks, m.completed_tasks, m.failed_tasks), (0, 1, 0));

    let mut f = task_at(TaskPriority::Low, 6, "t2");
    f.state = TaskState::Failed;
    s.update_task_at(f, 800).unwrap();
    assert_eq!(s.get_task_by_id("t2").unwrap().unwrap().state, TaskState::Failed);
    assert_eq!(s.get_metrics().failed_tasks, 1);
    assert!(s.get_task_by_id("missing").unwrap().is_none());
}

#[test]
fn pending_update_requeues_with_one_more_retry() {
    let mut s = BackgroundScheduler::new(small_config(1));
    let t = task_at(TaskPriority::Medium, 1, "r");
    s.update_task_at(t.clone(), 0).unwrap();
    let queued = s.get_task_by_id("r").unwrap().unwrap();
    assert_eq!(queued.retry_count, 1);
    assert_eq!(queued.state, TaskState::Pending);
    assert_eq!(s.update_task_at(t, 0), Err(SchedulerError::QueueFull { limit: 1 }));
    assert_eq!(s.queue_size(), 1);
}

#[test]
fn scheduler_refuses_beyond_capacity() {
    let mut s = BackgroundScheduler::new(small_config(2));
    s.enqueue(task_at(TaskPriority::Low, 1, "a")).unwrap();
    s.enqueue(task_at(TaskPriority::Low, 2, "b")).unwrap();
    assert_eq!(s.enqueue(task_at(TaskPriority::Critical, 3, "c")), Err(SchedulerError::QueueFull { limit: 2 }));
    assert_eq!(s.queue_size(), 2);
    assert_eq!(s.get_metrics().current_queue_size, 2);
}

#[test]
fn cancel_all_keeps_finished_tasks() {
    let mut s = BackgroundScheduler::new(small_config(5));
    s.enqueue(task_at(TaskPriority::Low, 1, "p")).unwrap();
    let mut e = task_at(TaskPriority::Low, 2, "e");
    e.state = TaskState::Executing;
    s.update_task_at(e, 3).unwrap();
    let mut c = task_at(TaskPriority::Low, 4, "c");
    c.state = TaskState::Completed;
    s.update_task_at(c, 5).unwrap();
    s.cancel_all_tasks();
    assert_eq!(s.queue_size(), 0);
    assert!(s.get_task_by_id("p").unwrap().is_none());
    assert!(s.get_task_by_id("e").unwrap().is_none());
    assert!(s.get_task_by_id("c").unwrap().is_some());
    let m = s.get_metrics();
    assert_eq!((m.current_queue_size, m.executing_tasks, m.completed_tasks), (0, 0, 1));
}

#[test]
fn timed_out_tasks_are_reported() {
    let mut s = BackgroundScheduler::new(small_config(5));
    let mut slow = task_at(TaskPriority::Low, 0, "slow");
    slow.state = TaskState::Executing;
    slow.started_at_nanos = Some(0);
    slow.timeout_ms = 1;
    s.update_task_at(slow, 0).unwrap();
    let mut quick = task_at(TaskPriority::Low, 0, "quick");
    quick.state = TaskState::Executing;
    quick.started_at_nanos = Some(0);
    quick.timeout_ms = 1_000;
    s.update_task_at(quick, 0).unwrap();
    let late = s.get_timed_out_tasks_at(2_000_000);
    assert_eq!(late.len(), 1);
    assert_eq!(late[0].id, "slow");
    assert!(s.get_timed_out_tasks_at(1_000_000).is_empty());
}

#[test]
fn snapshot_and_restore_round_trip() {
    let mut s = BackgroundScheduler::new(small_config(1));
    s.enqueue(task_at(TaskPriority::High, 1, "p")).unwrap();
    let mut f = task_at(TaskPriority::Low, 2, "f");
    f.state = TaskState::Failed;
    s.update_task_at(f, 3).unwrap();
    let snap = s.snapshot();
    assert_eq!(snap.version, 1);
    assert_eq!(snap.pending_tasks.len(), 1);
    assert_eq!(snap.failed_tasks.len(), 1);

    let mut fresh = BackgroundScheduler::new(small_config(1));
    fresh.restore(&snap);
    fresh.restore(&snap);
    assert_eq!(fresh.queue_size(), 2);
    assert_eq!(fresh.get_task_by_id("f").unwrap().unwrap().state, TaskState::Failed);
    assert_eq!(fresh.get_metrics(), snap.metrics);
    assert!(fresh.persistence_due(1_000));
    assert!(!fresh.persistence_due(999));
}

#[test]
fn queue_orders_by_priority_then_age() {
    let mut queue = TaskQueue::new(10);
    queue.enqueue(task_at(TaskPriority::Medium, 30, "m-new")).unwrap();
    queue.enqueue(task_at(TaskPriority::Critical, 50, "c")).unwrap();
    queue.enqueue(task_at(TaskPriority::Medium, 10, "m-old")).unwrap();
    queue.enqueue(task_at(TaskPriority::Low, 0, "l")).unwrap();
    let order: Vec<String> = (0..4).map(|_| queue.dequeue().unwrap().id).collect();
    assert_eq!(order, vec!["c", "m-old", "m-new", "l"]);
    assert!(queue.dequeue().is_none());
    assert!(queue.peek().is_none());
}

#[test]
fn queue_full_is_refused() {
    let mut queue = TaskQueue::new(1);
    queue.enqueue(task_at(TaskPriority::Low, 0, "a")).unwrap();
    let err = queue.enqueue(task_at(TaskPriority::High, 0, "b")).unwrap_err();
    assert_eq!(err, SchedulerError::QueueFull { limit: 1 });
    assert_eq!(queue.queue_size(), 1);
    queue.clear();
    assert_eq!(queue.queue_size(), 0);
}

#[test]
fn priority_levels_round_trip() {
    assert_eq!(TaskPriority::from_u8(1), TaskPriority::Low);
    assert_eq!(TaskPriority::from_u8(2), TaskPriority::Low);
    assert_eq!(TaskPriority::from_u8(3), TaskPriority::Medium);
    assert_eq!(TaskPriority::from_u8(6), TaskPriority::Medium);
    assert_eq!(TaskPriority::from_u8(7), TaskPriority::High);
    assert_eq!(TaskPriority::from_u8(9), TaskPriority::High);
    assert_eq!(TaskPriority::from_u8(10), TaskPriority::Critical);
    assert_eq!(TaskPriority::from_u8(0), TaskPriority::Critical);
    assert_eq!(TaskPriority::from_u8(200), TaskPriority::Critical);
    for p in [TaskPriority::Low, TaskPriority::Medium, TaskPriority::High, TaskPriority::Critical] {
        assert_eq!(TaskPriority::from_u8(p.to_u8()), p);
    }
    assert_eq!(TaskPriority::Medium.to_u8(), 5);
}

#[test]
fn task_state_transitions() {
    let (p, e, c, f, x) = (TaskState::Pending, TaskState::Executing, TaskState::Completed, TaskState::Failed, TaskState::Cancelled);
    assert!(p.can_transition_to(&e));
    assert!(p.can_transition_to(&x));
    assert!(e.can_transition_to(&c));
    assert!(e.can_transition_to(&f));
    assert!(e.can_transition_to(&x));
    assert!(f.can_transition_to(&p));
    assert!(!c.can_transition_to(&p));
    assert!(!x.can_transition_to(&e));
    assert!(!p.can_transition_to(&c));
    assert!(!p.can_transition_to(&p));
}

#[test]
fn research_queries() {
    let mut gap = TaskGap::from_detected(&create_test_gap());
    gap.description = "Test TODO comment".to_string();
    assert_eq!(
        generate_research_query(&gap),
        "Research implementation approach for TODO: Test TODO comment in file test.rs"
    );
    gap.gap_type = GapType::UndocumentedTechnology;
    assert_eq!(
        generate_research_query(&gap),
        "Research technology usage patterns and best practices for Test TODO comment"
    );
    gap.gap_type = GapType::ConfigurationGap;
    assert_eq!(
        generate_research_query(&gap),
        "Document configuration options and usage for Test TODO comment in test.rs"
    );
}

#[test]
fn timeouts_and_retries() {
    let mut task = task_at(TaskPriority::Low, 0, "t");
    assert!(!task.is_timed_out_at(i64::MAX));
    assert!(!task.is_timed_out());
    task.started_at_nanos = Some(1_000);
    task.timeout_ms = 1;
    assert!(!task.is_timed_out_at(1_000 + 1_000_000));
    assert!(task.is_timed_out_at(1_000 + 1_000_001));
    assert!(!task.is_timed_out_at(0));
    assert!(!task.can_retry());
    task.state = TaskState::Failed;
    assert!(task.can_retry());
    task.retry_count = 3;
    assert!(!task.can_retry());
}

#[test]
fn scheduler_config_defaults() {
    let c = BackgroundSchedulerConfig::default();
    assert_eq!(c.queue_file, "task_queue.json");
    assert_eq!(c.max_queue_size, 10000);
    assert_eq!(c.persistence_interval_ms, 30_000);
    assert_eq!(c.max_concurrent_tasks, 5);
    assert_eq!(c.default_timeout_ms, 300_000);
}

#[test]
fn enhanced_gap_tasks() {
    let enhancement = TaskEnhancement { quality_score: "0.78".to_string(), passed_filters: true, applied_rules_count: 3 };
    let task = ResearchTask::from_enhanced_gap(create_test_gap(), 8, enhancement.clone(), Some(60_000));
    assert_eq!(task.priority, TaskPriority::High);
    assert_eq!(task.timeout_ms, 60_000);
    assert_eq!(task.gap.line_number, 10);
    assert_eq!(task.enhancement, Some(enhancement));
    assert_eq!(
        task.metadata(),
        vec![
            ("quality_score".to_string(), "0.78".to_string()),
            ("passed_filters".to_string(), "true".to_string()),
            ("applied_rules_count".to_string(), "3".to_string()),
        ]
    );
    let plain = TaskEnhancement { quality_score: "0.1".to_string(), passed_filters: false, applied_rules_count: 12 };
    let task = ResearchTask::from_enhanced_gap(create_test_gap(), 0, plain, None);
    assert_eq!(task.priority, TaskPriority::Critical);
    assert_eq!(task.timeout_ms, 300_000);
    assert_eq!(task.metadata()[1].1, "false");
    assert_eq!(task.metadata()[2].1, "12");
    let task = ResearchTask::from_gap(create_test_gap(), TaskPriority::Low);
    assert!(task.metadata().is_empty());
    let id: Vec<char> = task.id.chars().collect();
    assert_eq!(id.len(), 36);
    for (i, c) in id.iter().enumerate() {
        if [8, 13, 18, 23].contains(&i) {
            assert_eq!(*c, '-');
        } else {
            assert!(c.is_ascii_digit() || ('a'..='f').contains(c));
        }
    }
}

#[test]
fn priority_display_names() {
    assert_eq!(TaskPriority::Low.to_string(), "low");
    assert_eq!(TaskPriority::Critical.to_string(), "critical");
}

fn gap_of(gap_type: GapType, confidence_percent: u8) -> DetectedGap {
    DetectedGap::new(gap_type, "g.rs".to_string(), 1, "ctx".to_string(), "gap".to_string(), confidence_percent)
}

#[test]
fn estimate_duration_scales_base_time() {
    let mut t = ResearchTask::from_gap(gap_of(GapType::TodoComment, 90), TaskPriority::Medium);
    assert_eq!(t.estimated_duration_ms, None);
    t.estimate_duration();
    assert_eq!(t.estimated_duration_ms, Some(198_000));
    let mut t = ResearchTask::from_gap(gap_of(GapType::ApiDocumentationGap, 50), TaskPriority::Critical);
    t.estimate_duration();
    assert_eq!(t.estimated_duration_ms, Some(540_000));
    let mut t = ResearchTask::from_gap(gap_of(GapType::MissingDocumentation, 100), TaskPriority::Low);
    t.estimate_duration();
    assert_eq!(t.estimated_duration_ms, Some(96_000));
    let mut t = ResearchTask::from_gap(gap_of(GapType::UndocumentedTechnology, 0), TaskPriority::High);
    t.estimate_duration();
    assert_eq!(t.estimated_duration_ms, Some(720_000));
    let mut t = ResearchTask::from_gap(gap_of(GapType::ConfigurationGap, 200), TaskPriority::High);
    t.estimate_duration();
    assert_eq!(t.estimated_duration_ms, Some(0));
}

#[test]
fn enqueue_estimates_a_task_without_estimate() {
    let mut s = BackgroundScheduler::new(small_config(10));
    let t = ResearchTask::from_gap(create_test_gap(), TaskPriority::Medium);
    let id = t.id.clone();
    s.enqueue(t).unwrap();
    let stored = s.get_task_by_id(&id).unwrap().unwrap();
    assert_eq!(stored.estimated_duration_ms, Some(198_000));
    assert_eq!(stored.priority, TaskPriority::Medium);
    assert_eq!(stored.state, TaskState::Pending);

    let mut kept = ResearchTask::from_gap(create_test_gap(), TaskPriority::High);
    kept.estimated_duration_ms = Some(5);
    let kept_id = kept.id.clone();
    s.enqueue(kept).unwrap();
    assert_eq!(s.get_task_by_id(&kept_id).unwrap().unwrap().estimated_duration_ms, Some(5));
    assert_eq!(s.queue_size(), 2);
}

#[test]
fn requeued_task_is_estimated() {
    let mut s = BackgroundScheduler::new(small_config(10));
    let t = ResearchTask::from_gap_at(TaskGap::from_detected(&create_test_gap()), TaskPriority::Low, "r".to_string(), 0);
    s.update_task_at(t, 5).unwrap();
    let stored = s.get_task_by_id("r").unwrap().unwrap();
    assert_eq!(stored.retry_count, 1);
    assert_eq!(stored.estimated_duration_ms, Some(158_400));
}
