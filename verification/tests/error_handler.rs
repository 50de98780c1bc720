use fortitude::error_handler::{
    determine_recovery_strategy, manual_intervention_error, recovery_step, retries_exhausted_error,
    retry_attempt_step, AttemptDecision, AttemptOutcome, CircuitBreaker, CircuitBreakerConfig,
    CircuitState, DeadLetterEntry, DeadLetterQueue, ErrorClassification, ErrorGate, ErrorHandler,
    ErrorHandlerConfig, ErrorMetrics,
    NetworkStatus, OperationOutcome, ProactiveError, RecoveryDecision, RecoveryStrategy,
    RetryLimits, ServiceStatus,
};
use fortitude::service_breakers::ServiceBreakers;

fn transient() -> ProactiveError {
    ProactiveError::Transient {
        message: "Temporary failure".to_string(),
        attempt: 1,
        max_attempts: 3,
        retry_after_ms: Some(1_000),
    }
}

fn permanent(msg: &str, code: &str) -> ProactiveError {
    ProactiveError::Permanent { message: msg.to_string(), error_code: code.to_string() }
}

#[test]
fn test_error_classification() {
    let transient_error = transient();
    assert_eq!(transient_error.classify(), ErrorClassification::Transient);
    assert!(transient_error.is_retryable());
    assert_eq!(transient_error.retry_delay_ms(), Some(1_000));

    let permanent_error = permanent("Invalid configuration", "CONFIG_ERROR");
    assert_eq!(permanent_error.classify(), ErrorClassification::Permanent);
    assert!(!permanent_error.is_retryable());
    assert_eq!(permanent_error.retry_delay_ms(), None);
}

#[test]
fn retryability_by_kind() {
    let net = |r| ProactiveError::Network {
        message: "m".to_string(),
        network_status: NetworkStatus::Limited,
        retry_recommended: r,
    };
    assert!(net(true).is_retryable());
    assert!(!net(false).is_retryable());
    assert_eq!(net(false).retry_delay_ms(), Some(10_000));
    let ext = |s| ProactiveError::ExternalService {
        service: "s".to_string(),
        message: "m".to_string(),
        status_code: Some(503),
        service_status: s,
    };
    assert!(ext(ServiceStatus::Degraded).is_retryable());
    assert!(ext(ServiceStatus::Unknown).is_retryable());
    assert!(!ext(ServiceStatus::Unavailable).is_retryable());
    assert_eq!(ext(ServiceStatus::Available).retry_delay_ms(), Some(30_000));
    let timeout = ProactiveError::Timeout { operation: "o".to_string(), timeout_ms: 1, elapsed_ms: 2 };
    assert!(timeout.is_retryable());
    assert_eq!(timeout.retry_delay_ms(), Some(5_000));
    let internal = ProactiveError::Internal {
        message: "m".to_string(),
        component: "c".to_string(),
        recoverable: false,
    };
    assert!(!internal.is_retryable());
    assert_eq!(internal.classify(), ErrorClassification::Internal);
    let validation = ProactiveError::Validation { message: "m".to_string(), field: None, constraint: None };
    assert!(!validation.is_retryable());
    assert_eq!(validation.duplicate(), validation);
    assert_eq!(NetworkStatus::Disconnected.to_string(), "disconnected");
    assert_eq!(ServiceStatus::Maintenance.to_string(), "maintenance");
}

#[test]
fn test_circuit_breaker() {
    let config = CircuitBreakerConfig {
        failure_threshold: 2,
        success_threshold: 1,
        timeout_ms: 100,
        half_open_max_calls: 1,
    };
    let mut cb = CircuitBreaker::new(config);
    let ms = 1_000_000u64;

    assert!(cb.can_execute_at(0));
    assert_eq!(cb.get_state(), CircuitState::Closed);

    cb.record_failure_at(0);
    assert_eq!(cb.get_state(), CircuitState::Closed);

    cb.record_failure_at(10 * ms);
    assert_eq!(cb.get_state(), CircuitState::Open);
    assert!(!cb.can_execute_at(20 * ms));

    // After the timeout the circuit is half-open.
    assert!(cb.can_execute_at(160 * ms));
    assert_eq!(cb.get_state(), CircuitState::HalfOpen);

    cb.record_success();
    assert_eq!(cb.get_state(), CircuitState::Closed);
    assert_eq!(cb.failure_count, 0);
}

#[test]
fn half_open_admits_limited_calls() {
    let config = CircuitBreakerConfig { failure_threshold: 1, success_threshold: 2, timeout_ms: 1, half_open_max_calls: 2 };
    let mut cb = CircuitBreaker::new(config);
    cb.record_failure_at(0);
    assert_eq!(cb.get_state(), CircuitState::Open);
    assert!(cb.can_execute_at(1_000_000));
    assert_eq!(cb.half_open_calls, 0);
    assert!(cb.can_execute_at(1_000_000));
    assert!(cb.can_execute_at(1_000_000));
    assert!(!cb.can_execute_at(1_000_000));
    cb.record_success();
    assert_eq!(cb.get_state(), CircuitState::HalfOpen);
    assert_eq!(cb.success_count, 1);
    cb.record_failure_at(5);
    assert_eq!(cb.get_state(), CircuitState::Open);
    let defaults = CircuitBreakerConfig::default();
    assert_eq!(defaults.failure_threshold, 3);
    assert_eq!(defaults.timeout_ms, 60_000);
    let mut clocked = CircuitBreaker::new(defaults);
    assert!(clocked.can_execute());
    clocked.record_failure();
    assert_eq!(clocked.failure_count, 1);
}

#[test]
fn test_dead_letter_queue() {
    let config = ErrorHandlerConfig { dead_letter_queue_size: 2, ..ErrorHandlerConfig::default() };
    let mut handler = ErrorHandler::new(config);
    handler.add_to_dead_letter_queue_at("op1", permanent("Error 1", "ERR1"), "a".to_string(), 1);
    handler.add_to_dead_letter_queue_at("op2", permanent("Error 2", "ERR2"), "b".to_string(), 2);
    handler.add_to_dead_letter_queue_at("op3", permanent("Error 3", "ERR3"), "c".to_string(), 3);
    let entries = handler.get_dead_letter_entries();
    assert_eq!(entries.len(), 2);
    assert_eq!(entries[0].original_operation, "op2");
    assert_eq!(entries[1].original_operation, "op3");
    assert_eq!(handler.get_metrics().dead_letter_entries, 3);

    let mut dlq = DeadLetterQueue::new(2);
    dlq.add_failure("op1", permanent("Error 1", "ERR1"));
    dlq.add_failure("op2", permanent("Error 2", "ERR2"));
    dlq.add_failure("op3", permanent("Error 3", "ERR3"));
    let entries = dlq.get_entries();
    assert_eq!(entries.len(), 2);
    assert_eq!(entries[0].original_operation, "op2");
    assert_eq!(entries[1].original_operation, "op3");
    assert_eq!(dlq.len(), 2);
}

fn quick_breaker() -> CircuitBreakerConfig {
    CircuitBreakerConfig { failure_threshold: 1, success_threshold: 1, timeout_ms: 1, half_open_max_calls: 1 }
}

#[test]
fn handler_gates_errors_through_the_service_breaker() {
    let config = ErrorHandlerConfig {
        circuit_breaker_configs: vec![("default".to_string(), quick_breaker())],
        ..ErrorHandlerConfig::default()
    };
    let mut handler = ErrorHandler::new_at(config, 0);
    assert!(handler.start());
    assert!(!handler.start());

    // A transient error recovers under the transient retry policy.
    let g = handler.begin_handle_error_at(transient(), "op", Some("svc"), 0, 10, "id1".to_string());
    assert_eq!(g, ErrorGate::Recover(RecoveryStrategy::Retry { delay_ms: 1_000, attempt: 1, max_attempts: 3 }));

    // A permanent error has no strategy: it is dead-lettered.
    let g = handler.begin_handle_error_at(permanent("m", "c"), "op2", None, 0, 11, "id2".to_string());
    assert_eq!(g, ErrorGate::GiveUp(permanent("m", "c")));
    let dead = handler.get_dead_letter_entries();
    assert_eq!(dead.len(), 1);
    assert_eq!(dead[0].id, "id2");
    assert_eq!(dead[0].original_operation, "op2");
    assert_eq!(dead[0].first_failure_nanos, 11);

    // One failure opens the breaker of "svc"; the next error is refused.
    handler.record_operation_failure_at(Some("svc"), 100);
    let g = handler.begin_handle_error_at(transient(), "op", Some("svc"), 100, 12, "id3".to_string());
    assert_eq!(
        g,
        ErrorGate::Refused(ProactiveError::CircuitBreakerOpen { service: "svc".to_string(), last_failure_nanos: 12, failure_count: 1 })
    );
    assert_eq!(handler.get_metrics().total_errors, 3);
    assert_eq!(handler.get_metrics().errors_for(ErrorClassification::Transient), 2);

    // Other services keep their own breakers.
    assert!(handler.breaker_admits_at(Some("other"), 100));
    // Once the timeout has passed the breaker lets a probe through, and a success closes it.
    assert!(handler.breaker_admits_at(Some("svc"), 2_000_000));
    handler.record_operation_success(Some("svc"));
    assert!(handler.breaker_admits_at(Some("svc"), 2_000_001));
    handler.stop();
}

#[test]
fn breakers_are_made_from_the_service_or_default_configuration() {
    let own = CircuitBreakerConfig { failure_threshold: 7, success_threshold: 1, timeout_ms: 5, half_open_max_calls: 1 };
    let mut breakers = ServiceBreakers::new(vec![("api".to_string(), own), ("default".to_string(), quick_breaker())]);
    assert_eq!(breakers.get_circuit_breaker("api").unwrap().config, own);
    assert_eq!(breakers.get_circuit_breaker("db").unwrap().config, quick_breaker());
    breakers.record_failure_at("db", 3);
    assert_eq!(breakers.get_circuit_breaker("db").unwrap().state, CircuitState::Open);
    assert_eq!(breakers.get_circuit_breaker("api").unwrap().state, CircuitState::Closed);
    assert_eq!(breakers.can_execute_at("db", 4), Some(false));

    let mut none = ServiceBreakers::new(vec![("api".to_string(), own)]);
    assert!(none.get_circuit_breaker("db").is_none());
    assert_eq!(none.can_execute_at("db", 0), None);
    assert_eq!(none.can_execute_at("api", 0), Some(true));
}

#[test]
fn dead_letter_queue_of_size_zero_keeps_newest() {
    let mut dlq = DeadLetterQueue::new(0);
    dlq.add(DeadLetterEntry::new_at("a".to_string(), "op1", permanent("e", "c"), 5));
    dlq.add(DeadLetterEntry::new_at("b".to_string(), "op2", permanent("e", "c"), 6));
    let entries = dlq.get_entries();
    assert_eq!(entries.len(), 1);
    assert_eq!(entries[0].id, "b");
    assert_eq!(entries[0].first_failure_nanos, 6);
}

#[test]
fn test_error_metrics() {
    let mut metrics = ErrorMetrics::new_at(0);
    metrics.record_error(ErrorClassification::Transient);
    metrics.record_error(ErrorClassification::Permanent);
    metrics.record_error_at(ErrorClassification::Transient, 7);
    assert_eq!(metrics.total_errors, 3);
    assert_eq!(metrics.errors_for(ErrorClassification::Transient), 2);
    assert_eq!(metrics.errors_for(ErrorClassification::Permanent), 1);
    assert_eq!(metrics.errors_for(ErrorClassification::Network), 0);
    assert_eq!(metrics.last_updated_nanos, 7);
    metrics.record_dead_letter();
    assert_eq!(metrics.dead_letter_entries, 1);
}

#[test]
fn recovery_strategies() {
    let limits = Some(RetryLimits { max_attempts: 3, initial_delay_ms: 1_000 });
    assert_eq!(
        determine_recovery_strategy(&transient(), limits),
        Some(RecoveryStrategy::Retry { delay_ms: 1_000, attempt: 1, max_attempts: 3 })
    );
    assert_eq!(determine_recovery_strategy(&transient(), None), None);
    let rate = ProactiveError::RateLimit { operation: "o".to_string(), retry_after_ms: 250, current_requests: 5, limit: 5 };
    assert_eq!(
        determine_recovery_strategy(&rate, None),
        Some(RecoveryStrategy::Retry { delay_ms: 250, attempt: 1, max_attempts: 3 })
    );
    let res = ProactiveError::ResourceExhaustion { resource: "queue".to_string(), suggested_backoff_ms: 5_000 };
    assert_eq!(
        determine_recovery_strategy(&res, None),
        Some(RecoveryStrategy::ResourceThrottling { backoff_duration_ms: 5_000, resource: "system".to_string() })
    );
    let cb = ProactiveError::CircuitBreakerOpen { service: "x".to_string(), last_failure_nanos: 0, failure_count: 1 };
    assert_eq!(
        determine_recovery_strategy(&cb, None),
        Some(RecoveryStrategy::CircuitBreakerWait { service: "default".to_string(), wait_duration_ms: 60_000 })
    );
    assert_eq!(determine_recovery_strategy(&permanent("m", "c"), limits), None);
}

#[test]
fn recovery_steps() {
    let retry = RecoveryStrategy::Retry { delay_ms: 100, attempt: 1, max_attempts: 2 };
    assert_eq!(recovery_step(&retry, OperationOutcome::Succeeded, "op", 10), RecoveryDecision::Done);
    assert_eq!(
        recovery_step(&retry, OperationOutcome::Failed(transient()), "op", 10),
        RecoveryDecision::Continue(RecoveryStrategy::Retry { delay_ms: 200, attempt: 2, max_attempts: 2 })
    );
    let last = RecoveryStrategy::Retry { delay_ms: 200, attempt: 2, max_attempts: 2 };
    assert_eq!(recovery_step(&last, OperationOutcome::Failed(transient()), "op", 10), RecoveryDecision::Fail(transient()));
    assert_eq!(
        recovery_step(&retry, OperationOutcome::TimedOut, "op", 10),
        RecoveryDecision::Fail(ProactiveError::Timeout { operation: "op".to_string(), timeout_ms: 10, elapsed_ms: 10 })
    );
    let e = manual_intervention_error("disk on fire");
    assert_eq!(e, permanent("Manual intervention required: disk on fire", "MANUAL_INTERVENTION_REQUIRED"));
}

#[test]
fn test_error_handler_retry() {
    // Two transient failures, then success, with three attempts allowed.
    let outcomes = vec![
        AttemptOutcome::Failed(transient()),
        AttemptOutcome::Failed(transient()),
        AttemptOutcome::Succeeded,
    ];
    let mut calls = 0;
    let mut result = None;
    for (attempt, outcome) in outcomes.into_iter().enumerate() {
        calls += 1;
        match retry_attempt_step(attempt as u32, 3, outcome, "test_operation", "default", 300_000, 0) {
            AttemptDecision::Succeed => {
                result = Some("Success");
                break;
            }
            AttemptDecision::GiveUp { .. } => break,
            AttemptDecision::RetryNext => continue,
        }
    }
    assert_eq!(result, Some("Success"));
    assert_eq!(calls, 3);
}

#[test]
fn retry_gives_up() {
    assert_eq!(
        retry_attempt_step(2, 3, AttemptOutcome::Failed(transient()), "op", "svc", 1, 0),
        AttemptDecision::GiveUp { error: transient(), dead_letter: true }
    );
    assert_eq!(
        retry_attempt_step(0, 3, AttemptOutcome::Failed(permanent("m", "c")), "op", "svc", 1, 0),
        AttemptDecision::GiveUp { error: permanent("m", "c"), dead_letter: true }
    );
    assert_eq!(
        retry_attempt_step(1, 3, AttemptOutcome::CircuitOpen, "op", "svc", 1, 42),
        AttemptDecision::GiveUp {
            error: ProactiveError::CircuitBreakerOpen { service: "svc".to_string(), last_failure_nanos: 42, failure_count: 2 },
            dead_letter: false
        }
    );
    assert_eq!(retry_attempt_step(0, 3, AttemptOutcome::TimedOut, "op", "svc", 1, 0), AttemptDecision::RetryNext);
    assert_eq!(
        retry_attempt_step(2, 3, AttemptOutcome::TimedOut, "op", "svc", 9, 0),
        AttemptDecision::GiveUp {
            error: ProactiveError::Timeout { operation: "op".to_string(), timeout_ms: 9, elapsed_ms: 9 },
            dead_letter: true
        }
    );
    assert_eq!(
        retries_exhausted_error(3, "persist"),
        permanent("Max retries (3) exhausted for operation persist", "MAX_RETRIES_EXHAUSTED")
    );
}
