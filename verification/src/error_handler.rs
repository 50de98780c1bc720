//! Error classification, retry decisions, the circuit breaker state machine, the
//! bounded dead letter queue and error counting.

use vstd::prelude::*;
use std::collections::VecDeque;
use crate::clock::{new_uuid_v4, system_now_nanos, utc_now_nanos};
use crate::text::{append_decimal, decimal};
use crate::service_breakers::{config_for, ServiceBreakers};

verus! {

/// Network status reported with a network error.
#[derive(Debug, Clone, Copy, PartialEq, Eq, Structural)]
pub enum NetworkStatus {
    Connected,
    Disconnected,
    Limited,
    Unknown,
}

impl NetworkStatus {
    /// The lower-case name of the status.
    pub fn to_string(&self) -> (s: String)
        ensures
            s@ == match *self {
                NetworkStatus::Connected => "connected"@,
                NetworkStatus::Disconnected => "disconnected"@,
                NetworkStatus::Limited => "limited"@,
                NetworkStatus::Unknown => "unknown"@,
            },
    {
        match self {
            NetworkStatus::Connected => "connected".to_owned(),
            NetworkStatus::Disconnected => "disconnected".to_owned(),
            NetworkStatus::Limited => "limited".to_owned(),
            NetworkStatus::Unknown => "unknown".to_owned(),
        }
    }
}

/// Status of an external service.
#[derive(Debug, Clone, Copy, PartialEq, Eq, Structural)]
pub enum ServiceStatus {
    Available,
    Degraded,
    Unavailable,
    Maintenance,
    Unknown,
}

impl ServiceStatus {
    /// The lower-case name of the status.
    pub fn to_string(&self) -> (s: String)
        ensures
            s@ == match *self {
                ServiceStatus::Available => "available"@,
                ServiceStatus::Degraded => "degraded"@,
                ServiceStatus::Unavailable => "unavailable"@,
                ServiceStatus::Maintenance => "maintenance"@,
                ServiceStatus::Unknown => "unknown"@,
            },
    {
        match self {
            ServiceStatus::Available => "available".to_owned(),
            ServiceStatus::Degraded => "degraded".to_owned(),
            ServiceStatus::Unavailable => "unavailable".to_owned(),
            ServiceStatus::Maintenance => "maintenance".to_owned(),
            ServiceStatus::Unknown => "unknown".to_owned(),
        }
    }
}

/// Comprehensive error types for classification and handling. Durations are in
/// milliseconds, times in nanoseconds since the Unix epoch.
#[derive(Debug, Clone, PartialEq, Eq)]
pub enum ProactiveError {
    Transient { message: String, attempt: u32, max_attempts: u32, retry_after_ms: Option<u64> },
    Permanent { message: String, error_code: String },
    RateLimit { operation: String, retry_after_ms: u64, current_requests: u32, limit: u32 },
    CircuitBreakerOpen { service: String, last_failure_nanos: i64, failure_count: u32 },
    ResourceExhaustion { resource: String, suggested_backoff_ms: u64 },
    Timeout { operation: String, timeout_ms: u64, elapsed_ms: u64 },
    Validation { message: String, field: Option<String>, constraint: Option<String> },
    Network { message: String, network_status: NetworkStatus, retry_recommended: bool },
    ExternalService {
        service: String,
        message: String,
        status_code: Option<u16>,
        service_status: ServiceStatus,
    },
    Internal { message: String, component: String, recoverable: bool },
}

/// Error classification for handling strategy determination.
#[derive(Debug, Clone, Copy, PartialEq, Eq, Structural, Hash)]
pub enum ErrorClassification {
    Transient,
    Permanent,
    RateLimit,
    CircuitBreaker,
    ResourceExhaustion,
    Timeout,
    Validation,
    Network,
    ExternalService,
    Internal,
}

/// The class of an error: one class per error variant.
pub open spec fn classification_of(e: ProactiveError) -> ErrorClassification {
    match e {
        ProactiveError::Transient { .. } => ErrorClassification::Transient,
        ProactiveError::Permanent { .. } => ErrorClassification::Permanent,
        ProactiveError::RateLimit { .. } => ErrorClassification::RateLimit,
        ProactiveError::CircuitBreakerOpen { .. } => ErrorClassification::CircuitBreaker,
        ProactiveError::ResourceExhaustion { .. } => ErrorClassification::ResourceExhaustion,
        ProactiveError::Timeout { .. } => ErrorClassification::Timeout,
        ProactiveError::Validation { .. } => ErrorClassification::Validation,
        ProactiveError::Network { .. } => ErrorClassification::Network,
        ProactiveError::ExternalService { .. } => ErrorClassification::ExternalService,
        ProactiveError::Internal { .. } => ErrorClassification::Internal,
    }
}

/// Which errors are worth retrying: transient, rate-limit, resource-exhaustion and
/// timeout errors always; network errors when a retry is recommended; external-service
/// errors when the service is degraded or of unknown status; internal errors when
/// recoverable; nothing else.
pub open spec fn retryable(e: ProactiveError) -> bool {
    match e {
        ProactiveError::Transient { .. } => true,
        ProactiveError::RateLimit { .. } => true,
        ProactiveError::ResourceExhaustion { .. } => true,
        ProactiveError::Timeout { .. } => true,
        ProactiveError::Network { retry_recommended, .. } => retry_recommended,
        ProactiveError::ExternalService { service_status, .. } => service_status
            == ServiceStatus::Degraded || service_status == ServiceStatus::Unknown,
        ProactiveError::Internal { recoverable, .. } => recoverable,
        _ => false,
    }
}

/// The suggested wait before retrying, in milliseconds.
pub open spec fn suggested_delay_ms(e: ProactiveError) -> Option<u64> {
    match e {
        ProactiveError::Transient { retry_after_ms, .. } => retry_after_ms,
        ProactiveError::RateLimit { retry_after_ms, .. } => Some(retry_after_ms),
        ProactiveError::ResourceExhaustion { suggested_backoff_ms, .. } => Some(suggested_backoff_ms),
        ProactiveError::Timeout { .. } => Some(5_000),
        ProactiveError::Network { .. } => Some(10_000),
        ProactiveError::ExternalService { .. } => Some(30_000),
        _ => None,
    }
}

/// A copy of an optional string.
pub fn duplicate_opt_string(o: &Option<String>) -> (r: Option<String>)
    ensures
        r == *o,
{
    match o {
        Some(s) => Some(s.clone()),
        None => None,
    }
}

impl ProactiveError {
    /// A field-by-field copy.
    pub fn duplicate(&self) -> (r: ProactiveError)
        ensures
            r == *self,
    {
        match self {
            ProactiveError::Transient { message, attempt, max_attempts, retry_after_ms } => ProactiveError::Transient {
                message: message.clone(),
                attempt: *attempt,
                max_attempts: *max_attempts,
                retry_after_ms: *retry_after_ms,
            },
            ProactiveError::Permanent { message, error_code } => ProactiveError::Permanent {
                message: message.clone(),
                error_code: error_code.clone(),
            },
            ProactiveError::RateLimit { operation, retry_after_ms, current_requests, limit } => ProactiveError::RateLimit {
                operation: operation.clone(),
                retry_after_ms: *retry_after_ms,
                current_requests: *current_requests,
                limit: *limit,
            },
            ProactiveError::CircuitBreakerOpen { service, last_failure_nanos, failure_count } => ProactiveError::CircuitBreakerOpen {
                service: service.clone(),
                last_failure_nanos: *last_failure_nanos,
                failure_count: *failure_count,
            },
            ProactiveError::ResourceExhaustion { resource, suggested_backoff_ms } => ProactiveError::ResourceExhaustion {
                resource: resource.clone(),
                suggested_backoff_ms: *suggested_backoff_ms,
            },
            ProactiveError::Timeout { operation, timeout_ms, elapsed_ms } => ProactiveError::Timeout {
                operation: operation.clone(),
                timeout_ms: *timeout_ms,
                elapsed_ms: *elapsed_ms,
            },
            ProactiveError::Validation { message, field, constraint } => ProactiveError::Validation {
                message: message.clone(),
                field: duplicate_opt_string(field),
                constraint: duplicate_opt_string(constraint),
            },
            ProactiveError::Network { message, network_status, retry_recommended } => ProactiveError::Network {
                message: message.clone(),
                network_status: *network_status,
                retry_recommended: *retry_recommended,
            },
            ProactiveError::ExternalService { service, message, status_code, service_status } => ProactiveError::ExternalService {
                service: service.clone(),
                message: message.clone(),
                status_code: *status_code,
                service_status: *service_status,
            },
            ProactiveError::Internal { message, component, recoverable } => ProactiveError::Internal {
                message: message.clone(),
                component: component.clone(),
                recoverable: *recoverable,
            },
        }
    }

    /// Classify error for handling strategy.
    pub fn classify(&self) -> (c: ErrorClassification)
        ensures
            c == classification_of(*self),
    {
        match self {
            ProactiveError::Transient { .. } => ErrorClassification::Transient,
            ProactiveError::Permanent { .. } => ErrorClassification::Permanent,
            ProactiveError::RateLimit { .. } => ErrorClassification::RateLimit,
            ProactiveError::CircuitBreakerOpen { .. } => ErrorClassification::CircuitBreaker,
            ProactiveError::ResourceExhaustion { .. } => ErrorClassification::ResourceExhaustion,
            ProactiveError::Timeout { .. } => ErrorClassification::Timeout,
            ProactiveError::Validation { .. } => ErrorClassification::Validation,
            ProactiveError::Network { .. } => ErrorClassification::Network,
            ProactiveError::ExternalService { .. } => ErrorClassification::ExternalService,
            ProactiveError::Internal { .. } => ErrorClassification::Internal,
        }
    }

    /// Check if error is retryable.
    pub fn is_retryable(&self) -> (r: bool)
        ensures
            r == retryable(*self),
    {
        match self {
            ProactiveError::Transient { .. } => true,
            ProactiveError::RateLimit { .. } => true,
            ProactiveError::ResourceExhaustion { .. } => true,
            ProactiveError::Timeout { .. } => true,
            ProactiveError::Network { retry_recommended, .. } => *retry_recommended,
            ProactiveError::ExternalService { service_status, .. } => match service_status {
                ServiceStatus::Degraded => true,
                ServiceStatus::Unknown => true,
                _ => false,
            },
            ProactiveError::Internal { recoverable, .. } => *recoverable,
            _ => false,
        }
    }

    /// Get suggested retry delay in milliseconds.
    pub fn retry_delay_ms(&self) -> (d: Option<u64>)
        ensures
            d == suggested_delay_ms(*self),
    {
        match self {
            ProactiveError::Transient { retry_after_ms, .. } => *retry_after_ms,
            ProactiveError::RateLimit { retry_after_ms, .. } => Some(*retry_after_ms),
            ProactiveError::ResourceExhaustion { suggested_backoff_ms, .. } => Some(
                *suggested_backoff_ms,
            ),
            ProactiveError::Timeout { .. } => Some(5_000),
            ProactiveError::Network { .. } => Some(10_000),
            ProactiveError::ExternalService { .. } => Some(30_000),
            _ => None,
        }
    }
}

/// Which errors are retried, by what they carry: transient, rate-limit,
/// resource-exhaustion and timeout errors always; a network error exactly when a retry
/// is recommended; an external-service error exactly when the service is degraded or
/// of unknown status; an internal error exactly when it is recoverable; permanent,
/// validation and open-circuit errors never.
pub proof fn lemma_retry_decision(e: ProactiveError)
    ensures
        e is Transient || e is RateLimit || e is ResourceExhaustion || e is Timeout ==> retryable(e),
        e is Permanent || e is Validation || e is CircuitBreakerOpen ==> !retryable(e),
        e matches ProactiveError::Network { retry_recommended, .. } ==> (retryable(e) <==> retry_recommended),
        e matches ProactiveError::ExternalService { service_status, .. } ==> (retryable(e) <==> (service_status
            == ServiceStatus::Degraded || service_status == ServiceStatus::Unknown)),
        e matches ProactiveError::Internal { recoverable, .. } ==> (retryable(e) <==> recoverable),
{
}

/// Permanent and validation errors are never retried, and every error that suggests
/// no delay is one of the kinds that carry none.
pub proof fn lemma_permanent_not_retryable(e: ProactiveError)
    ensures
        classification_of(e) == ErrorClassification::Permanent ==> !retryable(e),
        classification_of(e) == ErrorClassification::Validation ==> !retryable(e),
        classification_of(e) == ErrorClassification::CircuitBreaker ==> !retryable(e),
        suggested_delay_ms(e) is None ==> (classification_of(e) == ErrorClassification::Transient
            || classification_of(e) == ErrorClassification::Permanent || classification_of(e)
            == ErrorClassification::CircuitBreaker || classification_of(e)
            == ErrorClassification::Validation || classification_of(e)
            == ErrorClassification::Internal),
{
}

/// Circuit breaker state.
#[derive(Debug, Clone, Copy, PartialEq, Eq, Structural)]
pub enum CircuitState {
    /// Normal operation
    Closed,
    /// Failing, reject requests
    Open,
    /// Testing if service recovered
    HalfOpen,
}

/// Circuit breaker configuration.
#[derive(Debug, Clone, Copy, PartialEq, Eq, Structural)]
pub struct CircuitBreakerConfig {
    pub failure_threshold: u32,
    pub success_threshold: u32,
    /// How long the circuit stays open after the last failure, in milliseconds
    pub timeout_ms: u64,
    pub half_open_max_calls: u32,
}

impl Default for CircuitBreakerConfig {
    fn default() -> (c: CircuitBreakerConfig)
        ensures
            c == (CircuitBreakerConfig {
                failure_threshold: 3,
                success_threshold: 2,
                timeout_ms: 60_000,
                half_open_max_calls: 5,
            }),
    {
        CircuitBreakerConfig {
            failure_threshold: 3,
            success_threshold: 2,
            timeout_ms: 60_000,
            half_open_max_calls: 5,
        }
    }
}

/// Circuit breaker for external service calls. Times are nanoseconds on a clock that the
/// caller supplies.
#[derive(Debug, Clone, Copy, PartialEq, Eq, Structural)]
pub struct CircuitBreaker {
    pub config: CircuitBreakerConfig,
    pub state: CircuitState,
    pub failure_count: u32,
    pub success_count: u32,
    pub last_failure_nanos: Option<u64>,
    pub half_open_calls: u32,
}

/// The timeout has passed since the last failure at time `now`.
pub open spec fn cooled_down(b: CircuitBreaker, now: u64) -> bool {
    match b.last_failure_nanos {
        Some(t) => (if now >= t { now - t } else { 0 }) >= b.config.timeout_ms * 1_000_000,
        None => false,
    }
}

/// Whether a call at time `now` is admitted.
pub open spec fn admits(b: CircuitBreaker, now: u64) -> bool {
    match b.state {
        CircuitState::Closed => true,
        CircuitState::Open => cooled_down(b, now),
        CircuitState::HalfOpen => b.half_open_calls < b.config.half_open_max_calls,
    }
}

/// The breaker after asking whether a call at time `now` may run: an open breaker
/// whose timeout has passed becomes half-open with no calls counted; a half-open
/// breaker counts each admitted call.
pub open spec fn after_check(b: CircuitBreaker, now: u64) -> CircuitBreaker {
    match b.state {
        CircuitState::Closed => b,
        CircuitState::Open => if cooled_down(b, now) {
            CircuitBreaker { state: CircuitState::HalfOpen, half_open_calls: 0, ..b }
        } else {
            b
        },
        CircuitState::HalfOpen => if b.half_open_calls < b.config.half_open_max_calls {
            CircuitBreaker { half_open_calls: (b.half_open_calls + 1) as u32, ..b }
        } else {
            b
        },
    }
}

/// The breaker after a success: in the half-open state successes are counted, and
/// enough of them close the circuit and clear both counters.
pub open spec fn after_success(b: CircuitBreaker) -> CircuitBreaker {
    if b.state == CircuitState::HalfOpen {
        let successes = b.success_count + 1;
        if successes >= b.config.success_threshold {
            CircuitBreaker { state: CircuitState::Closed, failure_count: 0, success_count: 0, ..b }
        } else {
            CircuitBreaker { success_count: successes as u32, ..b }
        }
    } else {
        b
    }
}

/// The breaker after a failure at time `now`: the failure is counted and stamped, and
/// once the threshold is reached the circuit opens.
pub open spec fn after_failure(b: CircuitBreaker, now: u64) -> CircuitBreaker {
    let failures = b.failure_count + 1;
    CircuitBreaker {
        failure_count: failures as u32,
        last_failure_nanos: Some(now),
        state: if failures >= b.config.failure_threshold {
            CircuitState::Open
        } else {
            b.state
        },
        ..b
    }
}

/// A closed breaker with no failures or successes recorded.
pub open spec fn fresh_breaker(config: CircuitBreakerConfig) -> CircuitBreaker {
    CircuitBreaker {
        config,
        state: CircuitState::Closed,
        failure_count: 0,
        success_count: 0,
        last_failure_nanos: None,
        half_open_calls: 0,
    }
}

impl CircuitBreaker {
    /// A closed breaker with no failures or successes recorded.
    pub fn new(config: CircuitBreakerConfig) -> (b: CircuitBreaker)
        ensures
            b == (CircuitBreaker {
                config,
                state: CircuitState::Closed,
                failure_count: 0,
                success_count: 0,
                last_failure_nanos: None,
                half_open_calls: 0,
            }),
    {
        CircuitBreaker {
            config,
            state: CircuitState::Closed,
            failure_count: 0,
            success_count: 0,
            last_failure_nanos: None,
            half_open_calls: 0,
        }
    }

    /// Check if a call at time `now_nanos` should be allowed.
    pub fn can_execute_at(&mut self, now_nanos: u64) -> (r: bool)
        ensures
            r == admits(*old(self), now_nanos),
            *final(self) == after_check(*old(self), now_nanos),
    {
        match self.state {
            CircuitState::Closed => true,
            CircuitState::Open => {
                match self.last_failure_nanos {
                    Some(t) => {
                        let elapsed: u64 = if now_nanos >= t { now_nanos - t } else { 0 };
                        if (elapsed as u128) >= (self.config.timeout_ms as u128) * 1_000_000 {
                            self.state = CircuitState::HalfOpen;
                            self.half_open_calls = 0;
                            true
                        } else {
                            false
                        }
                    },
                    None => false,
                }
            },
            CircuitState::HalfOpen => {
                if self.half_open_calls < self.config.half_open_max_calls {
                    self.half_open_calls = self.half_open_calls + 1;
                    true
                } else {
                    false
                }
            },
        }
    }

    /// Check if a call now should be allowed. The reading comes from the system clock, so
    /// an adjustment of that clock moves the moment an open breaker half-opens;
    /// `can_execute_at` takes a reading from any clock, such as a monotonic one.
    pub fn can_execute(&mut self) -> (r: bool)
        ensures
            old(self).state == CircuitState::Closed ==> r && *final(self) == *old(self),
            old(self).state == CircuitState::HalfOpen ==> r == (old(self).half_open_calls
                < old(self).config.half_open_max_calls) && *final(self) == after_check(*old(self), 0),
            old(self).state == CircuitState::Open ==> (r <==> final(self).state == CircuitState::HalfOpen),
    {
        let now = system_now_nanos();
        self.can_execute_at(now)
    }

    /// Record successful operation.
    pub fn record_success(&mut self)
        requires
            old(self).success_count < u32::MAX,
        ensures
            *final(self) == after_success(*old(self)),
    {
        if self.state == CircuitState::HalfOpen {
            self.success_count = self.success_count + 1;
            if self.success_count >= self.config.success_threshold {
                self.state = CircuitState::Closed;
                self.failure_count = 0;
                self.success_count = 0;
            }
        }
    }

    /// Record failed operation at time `now_nanos`.
    pub fn record_failure_at(&mut self, now_nanos: u64)
        requires
            old(self).failure_count < u32::MAX,
        ensures
            *final(self) == after_failure(*old(self), now_nanos),
    {
        self.failure_count = self.failure_count + 1;
        self.last_failure_nanos = Some(now_nanos);
        if self.failure_count >= self.config.failure_threshold {
            self.state = CircuitState::Open;
        }
    }

    /// Record failed operation now, as read on the system clock (see `can_execute`).
    pub fn record_failure(&mut self)
        requires
            old(self).failure_count < u32::MAX,
        ensures
            final(self).failure_count == old(self).failure_count + 1,
            final(self).last_failure_nanos is Some,
            final(self).state == (if old(self).failure_count + 1 >= old(self).config.failure_threshold {
                CircuitState::Open
            } else {
                old(self).state
            }),
    {
        let now = system_now_nanos();
        self.record_failure_at(now)
    }

    /// Get current circuit state.
    pub fn get_state(&self) -> (s: CircuitState)
        ensures
            s == self.state,
    {
        self.state
    }
}

/// A half-open breaker never admits more calls than its configured maximum: the
/// counter of half-open calls stays within the limit through every step.
pub open spec fn half_open_bounded(b: CircuitBreaker) -> bool {
    b.state == CircuitState::HalfOpen ==> b.half_open_calls <= b.config.half_open_max_calls
}

/// Every step keeps the half-open call count within its limit.
pub proof fn lemma_half_open_calls_bounded(b: CircuitBreaker, now: u64)
    requires
        half_open_bounded(b),
    ensures
        half_open_bounded(after_check(b, now)),
        half_open_bounded(after_success(b)),
        half_open_bounded(after_failure(b, now)),
{
}

/// A closed breaker admits every call and is left unchanged by the check.
pub proof fn lemma_closed_admits(b: CircuitBreaker, now: u64)
    requires
        b.state == CircuitState::Closed,
    ensures
        admits(b, now),
        after_check(b, now) == b,
{
}

/// Reaching the failure threshold opens the circuit, whatever its state, and an open
/// circuit refuses calls until the timeout has passed since that last failure.
pub proof fn lemma_failures_open_circuit(b: CircuitBreaker, now: u64, later: u64)
    requires
        b.failure_count + 1 >= b.config.failure_threshold,
        b.config.timeout_ms > 0,
        now <= later,
        later - now < b.config.timeout_ms * 1_000_000,
    ensures
        after_failure(b, now).state == CircuitState::Open,
        !admits(after_failure(b, now), later),
        after_check(after_failure(b, now), later) == after_failure(b, now),
{
}

/// Once the timeout has passed, an open circuit lets one probe through and becomes
/// half-open with no probe calls counted.
pub proof fn lemma_open_recovers_after_timeout(b: CircuitBreaker, now: u64)
    requires
        b.state == CircuitState::Open,
        cooled_down(b, now),
    ensures
        admits(b, now),
        after_check(b, now).state == CircuitState::HalfOpen,
        after_check(b, now).half_open_calls == 0,
{
}

/// Enough successes while half-open close the circuit and clear its counters.
pub proof fn lemma_successes_close_circuit(b: CircuitBreaker)
    requires
        b.state == CircuitState::HalfOpen,
        b.success_count + 1 >= b.config.success_threshold,
    ensures
        after_success(b).state == CircuitState::Closed,
        after_success(b).failure_count == 0,
        after_success(b).success_count == 0,
{
}

/// Successes outside the half-open state change nothing.
pub proof fn lemma_success_ignored_unless_half_open(b: CircuitBreaker)
    requires
        b.state != CircuitState::HalfOpen,
    ensures
        after_success(b) == b,
{
}

/// Recovery strategies for different error types. Durations are in milliseconds.
#[derive(Debug, Clone, PartialEq, Eq)]
pub enum RecoveryStrategy {
    Retry { delay_ms: u64, attempt: u32, max_attempts: u32 },
    CircuitBreakerWait { service: String, wait_duration_ms: u64 },
    ResourceThrottling { backoff_duration_ms: u64, resource: String },
    ServiceDegradation { alternative_strategy: String },
    ManualIntervention { escalation_reason: String },
}

/// The attempt limit and first delay of a retry policy.
#[derive(Debug, Clone, Copy, PartialEq, Eq, Structural)]
pub struct RetryLimits {
    pub max_attempts: u32,
    pub initial_delay_ms: u64,
}

/// The strategy `r` is the one `determine_recovery_strategy` picks for `error`.
pub open spec fn is_strategy_for(error: ProactiveError, transient: Option<RetryLimits>, r: Option<RecoveryStrategy>) -> bool {
    match classification_of(error) {
        ErrorClassification::Transient => match transient {
            Some(p) => r == Some(RecoveryStrategy::Retry { delay_ms: p.initial_delay_ms, attempt: 1, max_attempts: p.max_attempts }),
            None => r is None,
        },
        ErrorClassification::RateLimit => match suggested_delay_ms(error) {
            Some(d) => r == Some(RecoveryStrategy::Retry { delay_ms: d, attempt: 1, max_attempts: 3 }),
            None => r is None,
        },
        ErrorClassification::ResourceExhaustion => match suggested_delay_ms(error) {
            Some(d) => r matches Some(RecoveryStrategy::ResourceThrottling { backoff_duration_ms, resource })
                && backoff_duration_ms == d && resource@ == "system"@,
            None => r is None,
        },
        ErrorClassification::CircuitBreaker => r matches Some(RecoveryStrategy::CircuitBreakerWait { service, wait_duration_ms })
            && service@ == "default"@ && wait_duration_ms == 60_000,
        ErrorClassification::ExternalService => r matches Some(RecoveryStrategy::ServiceDegradation { alternative_strategy })
            && alternative_strategy@ == "fallback_mechanism"@,
        _ => r is None,
    }
}

/// Determine the recovery strategy for an error: transient errors retry under the
/// transient policy when one is configured; rate-limited errors retry up to three times
/// after their suggested delay; exhausted resources are throttled; an open circuit is
/// waited out for a minute; failing external services degrade to a fallback; nothing
/// else recovers.
pub fn determine_recovery_strategy(error: &ProactiveError, transient: Option<RetryLimits>) -> (r: Option<RecoveryStrategy>)
    ensures
        is_strategy_for(*error, transient, r),
{
    match error.classify() {
        ErrorClassification::Transient => match transient {
            Some(p) => Some(RecoveryStrategy::Retry { delay_ms: p.initial_delay_ms, attempt: 1, max_attempts: p.max_attempts }),
            None => None,
        },
        ErrorClassification::RateLimit => match error.retry_delay_ms() {
            Some(d) => Some(RecoveryStrategy::Retry { delay_ms: d, attempt: 1, max_attempts: 3 }),
            None => None,
        },
        ErrorClassification::ResourceExhaustion => match error.retry_delay_ms() {
            Some(d) => Some(RecoveryStrategy::ResourceThrottling { backoff_duration_ms: d, resource: "system".to_owned() }),
            None => None,
        },
        ErrorClassification::CircuitBreaker => Some(RecoveryStrategy::CircuitBreakerWait {
            service: "default".to_owned(),
            wait_duration_ms: 60_000,
        }),
        ErrorClassification::ExternalService => Some(RecoveryStrategy::ServiceDegradation {
            alternative_strategy: "fallback_mechanism".to_owned(),
        }),
        _ => None,
    }
}

/// How long a strategy waits before running the operation again, in milliseconds.
pub open spec fn strategy_wait_ms(s: RecoveryStrategy) -> u64 {
    match s {
        RecoveryStrategy::Retry { delay_ms, .. } => delay_ms,
        RecoveryStrategy::CircuitBreakerWait { wait_duration_ms, .. } => wait_duration_ms,
        RecoveryStrategy::ResourceThrottling { backoff_duration_ms, .. } => backoff_duration_ms,
        _ => 0,
    }
}

/// What came of running an operation once.
#[derive(Debug, Clone, PartialEq, Eq)]
pub enum OperationOutcome {
    Succeeded,
    Failed(ProactiveError),
    TimedOut,
}

/// What a recovery does next, after one run of the operation.
#[derive(Debug, Clone, PartialEq, Eq)]
pub enum RecoveryDecision {
    /// The operation succeeded: hand its result back.
    Done,
    /// Give up with this error.
    Fail(ProactiveError),
    /// Wait and run the operation again under this strategy.
    Continue(RecoveryStrategy),
}

/// The timeout error for an operation that exceeded the recovery timeout.
pub open spec fn is_timeout_error(e: ProactiveError, operation: Seq<char>, timeout_ms: u64) -> bool {
    e matches ProactiveError::Timeout { operation: op, timeout_ms: t, elapsed_ms: el }
        && op@ == operation && t == timeout_ms && el == timeout_ms
}

/// Whether a strategy runs the operation at all (manual intervention does not).
pub open spec fn runs_operation(s: RecoveryStrategy) -> bool {
    !(s is ManualIntervention)
}

/// The error a recovery gives when manual intervention is required.
pub fn manual_intervention_error(escalation_reason: &str) -> (e: ProactiveError)
    ensures
        e matches ProactiveError::Permanent { message, error_code }
            && message@ == "Manual intervention required: "@ + escalation_reason@
            && error_code@ == "MANUAL_INTERVENTION_REQUIRED"@,
{
    let mut message = String::new();
    message.append("Manual intervention required: ");
    message.append(escalation_reason);
    ProactiveError::Permanent { message, error_code: "MANUAL_INTERVENTION_REQUIRED".to_owned() }
}

/// The next move of a recovery after one run of the operation under `strategy`: a retry
/// whose error is retryable and whose attempts are not used up runs again with the
/// delay doubled (saturating) and the attempt counted; a timeout gives the timeout
/// error; other strategies hand back what the operation gave.
pub fn recovery_step(strategy: &RecoveryStrategy, outcome: OperationOutcome, operation_name: &str, recovery_timeout_ms: u64) -> (d: RecoveryDecision)
    requires
        runs_operation(*strategy),
    ensures
        match outcome {
            OperationOutcome::Succeeded => d == RecoveryDecision::Done,
            OperationOutcome::TimedOut => d matches RecoveryDecision::Fail(e)
                && is_timeout_error(e, operation_name@, recovery_timeout_ms),
            OperationOutcome::Failed(e) => match *strategy {
                RecoveryStrategy::Retry { delay_ms, attempt, max_attempts } =>
                    if attempt < max_attempts && retryable(e) {
                        d == RecoveryDecision::Continue(RecoveryStrategy::Retry {
                            delay_ms: if delay_ms * 2 <= u64::MAX { (delay_ms * 2) as u64 } else { u64::MAX },
                            attempt: (attempt + 1) as u32,
                            max_attempts,
                        })
                    } else {
                        d == RecoveryDecision::Fail(e)
                    },
                _ => d == RecoveryDecision::Fail(e),
            },
        },
        d matches RecoveryDecision::Continue(next) ==> (next matches RecoveryStrategy::Retry { attempt: a2, max_attempts: m2, .. }
            && a2 <= m2 && a2 > strategy->Retry_attempt),
{
    match outcome {
        OperationOutcome::Succeeded => RecoveryDecision::Done,
        OperationOutcome::TimedOut => RecoveryDecision::Fail(ProactiveError::Timeout {
            operation: operation_name.to_owned(),
            timeout_ms: recovery_timeout_ms,
            elapsed_ms: recovery_timeout_ms,
        }),
        OperationOutcome::Failed(e) => match strategy {
            RecoveryStrategy::Retry { delay_ms, attempt, max_attempts } => {
                if *attempt < *max_attempts && e.is_retryable() {
                    RecoveryDecision::Continue(RecoveryStrategy::Retry {
                        delay_ms: if *delay_ms <= u64::MAX / 2 { *delay_ms * 2 } else { u64::MAX },
                        attempt: *attempt + 1,
                        max_attempts: *max_attempts,
                    })
                } else {
                    RecoveryDecision::Fail(e)
                }
            },
            _ => RecoveryDecision::Fail(e),
        },
    }
}

/// What came of one attempt of an operation run under retry.
#[derive(Debug, Clone, PartialEq, Eq)]
pub enum AttemptOutcome {
    /// The circuit breaker refused the call
    CircuitOpen,
    Succeeded,
    Failed(ProactiveError),
    TimedOut,
}

/// What the retry loop does after an attempt.
#[derive(Debug, Clone, PartialEq, Eq)]
pub enum AttemptDecision {
    /// Hand back the operation's result.
    Succeed,
    /// Give up with this error, recording it in the dead letter queue when asked.
    GiveUp { error: ProactiveError, dead_letter: bool },
    /// Wait the strategy's delay for the next attempt and try again.
    RetryNext,
}

/// The decision after attempt `attempt` (counted from zero) of at most `max_attempts`:
/// success ends the loop; an open circuit gives up with the circuit error; a failure
/// that is not retryable, or any failure or timeout on the last attempt, gives up and
/// is dead-lettered; otherwise the loop retries.
pub fn retry_attempt_step(
    attempt: u32,
    max_attempts: u32,
    outcome: AttemptOutcome,
    operation_name: &str,
    service: &str,
    recovery_timeout_ms: u64,
    now_nanos: i64,
) -> (d: AttemptDecision)
    requires
        attempt < max_attempts,
    ensures
        match outcome {
            AttemptOutcome::Succeeded => d == AttemptDecision::Succeed,
            AttemptOutcome::CircuitOpen => d matches AttemptDecision::GiveUp { error, dead_letter }
                && !dead_letter
                && (error matches ProactiveError::CircuitBreakerOpen { service: s, last_failure_nanos, failure_count }
                && s@ == service@ && last_failure_nanos == now_nanos && failure_count == attempt + 1),
            AttemptOutcome::Failed(e) => if !retryable(e) || attempt == max_attempts - 1 {
                d == AttemptDecision::GiveUp { error: e, dead_letter: true }
            } else {
                d == AttemptDecision::RetryNext
            },
            AttemptOutcome::TimedOut => if attempt == max_attempts - 1 {
                d matches AttemptDecision::GiveUp { error, dead_letter }
                    && dead_letter && is_timeout_error(error, operation_name@, recovery_timeout_ms)
            } else {
                d == AttemptDecision::RetryNext
            },
        },
        attempt == max_attempts - 1 ==> d != AttemptDecision::RetryNext,
{
    match outcome {
        AttemptOutcome::Succeeded => AttemptDecision::Succeed,
        AttemptOutcome::CircuitOpen => AttemptDecision::GiveUp {
            error: ProactiveError::CircuitBreakerOpen {
                service: service.to_owned(),
                last_failure_nanos: now_nanos,
                failure_count: attempt + 1,
            },
            dead_letter: false,
        },
        AttemptOutcome::Failed(e) => {
            if !e.is_retryable() || attempt == max_attempts - 1 {
                AttemptDecision::GiveUp { error: e, dead_letter: true }
            } else {
                AttemptDecision::RetryNext
            }
        },
        AttemptOutcome::TimedOut => {
            if attempt == max_attempts - 1 {
                AttemptDecision::GiveUp {
                    error: ProactiveError::Timeout {
                        operation: operation_name.to_owned(),
                        timeout_ms: recovery_timeout_ms,
                        elapsed_ms: recovery_timeout_ms,
                    },
                    dead_letter: true,
                }
            } else {
                AttemptDecision::RetryNext
            }
        },
    }
}

/// The error given when every attempt was used up.
pub fn retries_exhausted_error(max_attempts: u32, operation_name: &str) -> (e: ProactiveError)
    ensures
        e matches ProactiveError::Permanent { message, error_code }
            && message@ == "Max retries ("@ + decimal(max_attempts as nat) + ") exhausted for operation "@ + operation_name@
            && error_code@ == "MAX_RETRIES_EXHAUSTED"@,
{
    let mut message = String::new();
    message.append("Max retries (");
    append_decimal(&mut message, max_attempts as u64);
    message.append(") exhausted for operation ");
    message.append(operation_name);
    ProactiveError::Permanent { message, error_code: "MAX_RETRIES_EXHAUSTED".to_owned() }
}

/// An operation that failed for good, kept for inspection.
#[derive(Debug, Clone, PartialEq, Eq)]
pub struct DeadLetterEntry {
    pub id: String,
    pub original_operation: String,
    pub final_error: ProactiveError,
    pub total_attempts: u32,
    pub first_failure_nanos: i64,
    pub final_failure_nanos: i64,
    pub escalated: bool,
}

impl DeadLetterEntry {
    /// A fresh entry for an operation that failed with `error` at `now_nanos`.
    pub fn new_at(id: String, operation: &str, error: ProactiveError, now_nanos: i64) -> (e: DeadLetterEntry)
        ensures
            e.id == id,
            e.original_operation@ == operation@,
            e.final_error == error,
            e.total_attempts == 0,
            e.first_failure_nanos == now_nanos,
            e.final_failure_nanos == now_nanos,
            !e.escalated,
    {
        DeadLetterEntry {
            id,
            original_operation: operation.to_owned(),
            final_error: error,
            total_attempts: 0,
            first_failure_nanos: now_nanos,
            final_failure_nanos: now_nanos,
            escalated: false,
        }
    }
}

/// Dead letter queue for permanently failed operations: the most recent entries, oldest
/// first, at most `max_size` of them (one when the size is zero).
#[derive(Debug)]
pub struct DeadLetterQueue {
    entries: VecDeque<DeadLetterEntry>,
    max_size: usize,
    total_added: u64,
}

/// The entries after adding `e`: when the queue is at its size the oldest leaves first.
pub open spec fn dead_letter_after(entries: Seq<DeadLetterEntry>, max_size: nat, e: DeadLetterEntry) -> Seq<DeadLetterEntry> {
    if entries.len() >= max_size && entries.len() > 0 {
        entries.drop_first().push(e)
    } else {
        entries.push(e)
    }
}

impl DeadLetterQueue {
    /// The entries, oldest first.
    pub closed spec fn entries(&self) -> Seq<DeadLetterEntry> {
        self.entries@
    }

    /// The configured size.
    pub closed spec fn max_size(&self) -> nat {
        self.max_size as nat
    }

    /// How many entries were ever added.
    pub closed spec fn total_added(&self) -> nat {
        self.total_added as nat
    }

    /// An empty queue of the given size.
    pub fn new(max_size: usize) -> (q: DeadLetterQueue)
        ensures
            q.entries() == Seq::<DeadLetterEntry>::empty(),
            q.max_size() == max_size,
            q.total_added() == 0,
    {
        DeadLetterQueue { entries: VecDeque::new(), max_size, total_added: 0 }
    }

    /// Add failed operation to dead letter queue, evicting the oldest entry at the size
    /// limit.
    pub fn add(&mut self, entry: DeadLetterEntry)
        requires
            old(self).total_added() < u64::MAX,
        ensures
            final(self).entries() == dead_letter_after(old(self).entries(), old(self).max_size(), entry),
            final(self).max_size() == old(self).max_size(),
            final(self).total_added() == old(self).total_added() + 1,
    {
        if self.entries.len() >= self.max_size && self.entries.len() > 0 {
            self.entries.pop_front();
        }
        self.entries.push_back(entry);
        self.total_added = self.total_added + 1;
    }

    /// Record that `operation` failed for good with `error`, stamped now.
    pub fn add_failure(&mut self, operation: &str, error: ProactiveError)
        requires
            old(self).total_added() < u64::MAX,
        ensures
            final(self).entries().len() == dead_letter_after(old(self).entries(), old(self).max_size(), final(self).entries().last()).len(),
            final(self).entries().last().final_error == error,
            final(self).entries().last().original_operation@ == operation@,
            final(self).total_added() == old(self).total_added() + 1,
            final(self).max_size() == old(self).max_size(),
            final(self).entries() == dead_letter_after(old(self).entries(), old(self).max_size(), final(self).entries().last()),
    {
        let id = new_uuid_v4();
        let now = utc_now_nanos();
        let entry = DeadLetterEntry::new_at(id, operation, error, now);
        self.add(entry);
    }

    /// Number of entries held.
    pub fn len(&self) -> (n: usize)
        ensures
            n == self.entries().len(),
    {
        self.entries.len()
    }

    /// Get dead letter queue entries, oldest first.
    pub fn get_entries(&self) -> (v: Vec<DeadLetterEntry>)
        ensures
            v@ == self.entries(),
    {
        let mut v: Vec<DeadLetterEntry> = Vec::new();
        let mut i: usize = 0;
        while i < self.entries.len()
            invariant
                i <= self.entries@.len(),
                v@ == self.entries@.take(i as int),
            decreases self.entries.len() - i,
        {
            let e = &self.entries[i];
            v.push(DeadLetterEntry {
                id: e.id.clone(),
                original_operation: e.original_operation.clone(),
                final_error: e.final_error.duplicate(),
                total_attempts: e.total_attempts,
                first_failure_nanos: e.first_failure_nanos,
                final_failure_nanos: e.final_failure_nanos,
                escalated: e.escalated,
            });
            i = i + 1;
        }
        v
    }
}

/// The dead letter queue never holds more than its size (or one entry, for size zero),
/// and keeps the newest entries: the one just added is last, preceded by the most
/// recent of the earlier ones.
pub proof fn lemma_dead_letter_bounded(entries: Seq<DeadLetterEntry>, max_size: nat, e: DeadLetterEntry)
    requires
        entries.len() <= (if max_size == 0 { 1 } else { max_size }),
    ensures
        dead_letter_after(entries, max_size, e).len() <= (if max_size == 0 { 1 } else { max_size }),
        dead_letter_after(entries, max_size, e).last() == e,
        dead_letter_after(entries, max_size, e).drop_last().is_suffix_of(entries),
{
    let r = dead_letter_after(entries, max_size, e);
    assert(r.drop_last() =~= (if entries.len() >= max_size && entries.len() > 0 { entries.drop_first() } else { entries }));
    if entries.len() >= max_size && entries.len() > 0 {
        assert(entries.drop_first() =~= entries.subrange(1, entries.len() as int));
    } else {
        assert(entries.subrange(0, entries.len() as int) =~= entries);
    }
}

/// Position of a classification in the per-class counters.
pub open spec fn class_index(c: ErrorClassification) -> int {
    match c {
        ErrorClassification::Transient => 0,
        ErrorClassification::Permanent => 1,
        ErrorClassification::RateLimit => 2,
        ErrorClassification::CircuitBreaker => 3,
        ErrorClassification::ResourceExhaustion => 4,
        ErrorClassification::Timeout => 5,
        ErrorClassification::Validation => 6,
        ErrorClassification::Network => 7,
        ErrorClassification::ExternalService => 8,
        ErrorClassification::Internal => 9,
    }
}

fn class_position(c: ErrorClassification) -> (i: usize)
    ensures
        i == class_index(c),
{
    match c {
        ErrorClassification::Transient => 0,
        ErrorClassification::Permanent => 1,
        ErrorClassification::RateLimit => 2,
        ErrorClassification::CircuitBreaker => 3,
        ErrorClassification::ResourceExhaustion => 4,
        ErrorClassification::Timeout => 5,
        ErrorClassification::Validation => 6,
        ErrorClassification::Network => 7,
        ErrorClassification::ExternalService => 8,
        ErrorClassification::Internal => 9,
    }
}

/// Sum of the first `n` counters.
pub open spec fn counts_sum(counts: Seq<u64>, n: int) -> int
    decreases n,
{
    if n <= 0 {
        0
    } else {
        counts_sum(counts, n - 1) + counts[n - 1]
    }
}

proof fn lemma_counts_sum_update(counts: Seq<u64>, n: int, i: int, v: u64)
    requires
        0 <= i < counts.len(),
        0 <= n <= counts.len(),
    ensures
        counts_sum(counts.update(i, v), n) == counts_sum(counts, n) + (if i < n { v - counts[i] } else { 0 }),
    decreases n,
{
    if n > 0 {
        lemma_counts_sum_update(counts, n - 1, i, v);
    }
}

proof fn lemma_counts_sum_bounds(counts: Seq<u64>, n: int, i: int)
    requires
        0 <= i < n <= counts.len(),
    ensures
        counts_sum(counts, n) >= counts[i],
    decreases n,
{
    lemma_counts_sum_nonneg(counts, n - 1);
    if n - 1 > i {
        lemma_counts_sum_bounds(counts, n - 1, i);
    }
}

proof fn lemma_counts_sum_nonneg(counts: Seq<u64>, n: int)
    ensures
        counts_sum(counts, n) >= 0,
    decreases n,
{
    if n > 0 {
        lemma_counts_sum_nonneg(counts, n - 1);
    }
}

/// Error monitoring counters.
#[derive(Debug)]
pub struct ErrorMetrics {
    pub total_errors: u64,
    /// Errors counted per classification, in declaration order of the classes
    pub counts: Vec<u64>,
    pub circuit_breaker_trips: u64,
    pub dead_letter_entries: u64,
    pub average_recovery_time_ms: u64,
    pub last_updated_nanos: i64,
}

impl ErrorMetrics {
    /// Errors counted for a class.
    pub open spec fn count(&self, c: ErrorClassification) -> u64 {
        self.counts@[class_index(c)]
    }

    /// The per-class counters have one slot per class and add up to the total.
    pub open spec fn consistent(&self) -> bool {
        self.counts@.len() == 10 && counts_sum(self.counts@, 10) == self.total_errors
    }

    /// All counters at zero, stamped `now_nanos`.
    pub fn new_at(now_nanos: i64) -> (m: ErrorMetrics)
        ensures
            m.consistent(),
            m.total_errors == 0,
            forall|c: ErrorClassification| #[trigger] m.count(c) == 0,
            m.circuit_breaker_trips == 0,
            m.dead_letter_entries == 0,
            m.average_recovery_time_ms == 0,
            m.last_updated_nanos == now_nanos,
    {
        let counts: Vec<u64> = vec![0, 0, 0, 0, 0, 0, 0, 0, 0, 0];
        assert(counts_sum(counts@, 10) == 0) by {
            reveal_with_fuel(counts_sum, 11);
        }
        ErrorMetrics {
            total_errors: 0,
            counts,
            circuit_breaker_trips: 0,
            dead_letter_entries: 0,
            average_recovery_time_ms: 0,
            last_updated_nanos: now_nanos,
        }
    }

    /// Errors counted for a class.
    pub fn errors_for(&self, c: ErrorClassification) -> (n: u64)
        requires
            self.consistent(),
        ensures
            n == self.count(c),
    {
        self.counts[class_position(c)]
    }

    /// Count one error of class `c` at time `now_nanos`.
    pub fn record_error_at(&mut self, c: ErrorClassification, now_nanos: i64)
        requires
            old(self).consistent(),
            old(self).total_errors < u64::MAX,
        ensures
            final(self).consistent(),
            final(self).total_errors == old(self).total_errors + 1,
            final(self).count(c) == old(self).count(c) + 1,
            forall|d: ErrorClassification| d != c ==> #[trigger] final(self).count(d) == old(self).count(d),
            final(self).circuit_breaker_trips == old(self).circuit_breaker_trips,
            final(self).dead_letter_entries == old(self).dead_letter_entries,
            final(self).average_recovery_time_ms == old(self).average_recovery_time_ms,
            final(self).last_updated_nanos == now_nanos,
    {
        let i = class_position(c);
        proof {
            lemma_counts_sum_bounds(self.counts@, 10, i as int);
        }
        let v = self.counts[i] + 1;
        proof {
            lemma_counts_sum_update(self.counts@, 10, i as int, v);
        }
        self.counts.set(i, v);
        self.total_errors = self.total_errors + 1;
        self.last_updated_nanos = now_nanos;
        assert forall|d: ErrorClassification| d != c implies #[trigger] self.count(d) == old(self).count(d) by {
            assert(class_index(d) != class_index(c));
        }
    }

    /// Count one error of class `c` now.
    pub fn record_error(&mut self, c: ErrorClassification)
        requires
            old(self).consistent(),
            old(self).total_errors < u64::MAX,
        ensures
            final(self).consistent(),
            final(self).total_errors == old(self).total_errors + 1,
            final(self).count(c) == old(self).count(c) + 1,
            forall|d: ErrorClassification| d != c ==> #[trigger] final(self).count(d) == old(self).count(d),
            final(self).circuit_breaker_trips == old(self).circuit_breaker_trips,
            final(self).dead_letter_entries == old(self).dead_letter_entries,
            final(self).average_recovery_time_ms == old(self).average_recovery_time_ms,
    {
        let now = utc_now_nanos();
        self.record_error_at(c, now);
    }

    /// Count one entry added to the dead letter queue.
    pub fn record_dead_letter(&mut self)
        requires
            old(self).dead_letter_entries < u64::MAX,
        ensures
            final(self).dead_letter_entries == old(self).dead_letter_entries + 1,
            final(self).total_errors == old(self).total_errors,
            final(self).consistent() == old(self).consistent(),
            forall|d: ErrorClassification| #[trigger] final(self).count(d) == old(self).count(d),
    {
        self.dead_letter_entries = self.dead_letter_entries + 1;
    }
}

/// The per-class counters account for every error: each class count is at most the
/// total, and counting an error keeps the counts adding up to the total.
pub proof fn lemma_class_count_within_total(m: &ErrorMetrics, c: ErrorClassification)
    requires
        m.consistent(),
    ensures
        m.count(c) <= m.total_errors,
{
    lemma_counts_sum_bounds(m.counts@, 10, class_index(c));
}


/// Error handler settings: the transient retry policy, the breaker configurations by
/// service, the dead letter queue size, whether monitoring runs, and the recovery
/// timeout in milliseconds.
#[derive(Debug)]
pub struct ErrorHandlerConfig {
    pub transient_retry: Option<RetryLimits>,
    pub circuit_breaker_configs: Vec<(String, CircuitBreakerConfig)>,
    pub dead_letter_queue_size: usize,
    pub error_monitoring_enabled: bool,
    pub recovery_timeout_ms: u64,
}

impl Default for ErrorHandlerConfig {
    fn default() -> (c: ErrorHandlerConfig)
        ensures
            c.transient_retry == Some((RetryLimits { max_attempts: 3, initial_delay_ms: 1000 })),
            c.circuit_breaker_configs@.len() == 1,
            c.circuit_breaker_configs@[0].0@ == "default"@,
            c.circuit_breaker_configs@[0].1 == (CircuitBreakerConfig {
                failure_threshold: 3,
                success_threshold: 2,
                timeout_ms: 60_000,
                half_open_max_calls: 5,
            }),
            c.dead_letter_queue_size == 1000,
            c.error_monitoring_enabled,
            c.recovery_timeout_ms == 300_000,
    {
        let mut circuit_breaker_configs: Vec<(String, CircuitBreakerConfig)> = Vec::new();
        circuit_breaker_configs.push(("default".to_owned(), CircuitBreakerConfig::default()));
        ErrorHandlerConfig {
            transient_retry: Some(RetryLimits { max_attempts: 3, initial_delay_ms: 1000 }),
            circuit_breaker_configs,
            dead_letter_queue_size: 1000,
            error_monitoring_enabled: true,
            recovery_timeout_ms: 300_000,
        }
    }
}

/// How handling an error begins.
#[derive(Debug, Clone, PartialEq, Eq)]
pub enum ErrorGate {
    /// The service's circuit is open: fail with this error.
    Refused(ProactiveError),
    /// Run the operation again under this strategy.
    Recover(RecoveryStrategy),
    /// Nothing recovers the error: it was dead-lettered, fail with it.
    GiveUp(ProactiveError),
}

/// The service an operation is charged to: the one named, else "default".
pub open spec fn service_of(service_name: Option<&str>) -> Seq<char> {
    match service_name {
        Some(s) => s@,
        None => "default"@,
    }
}

/// Centralized error handler: error counts, per-service circuit breakers and the dead
/// letter queue. Breaker times are nanoseconds on a monotonic clock the caller supplies;
/// other times are nanoseconds since the Unix epoch.
#[derive(Debug)]
pub struct ErrorHandler {
    transient_retry: Option<RetryLimits>,
    recovery_timeout_ms: u64,
    error_monitoring_enabled: bool,
    circuit_breakers: ServiceBreakers,
    dead_letter_queue: DeadLetterQueue,
    metrics: ErrorMetrics,
    running: bool,
}

impl ErrorHandler {
    pub closed spec fn wf(&self) -> bool {
        &&& self.circuit_breakers.wf()
        &&& self.metrics.consistent()
        &&& self.metrics.dead_letter_entries == self.dead_letter_queue.total_added()
    }

    pub closed spec fn breakers(&self) -> ServiceBreakers {
        self.circuit_breakers
    }

    pub closed spec fn dead_letters(&self) -> DeadLetterQueue {
        self.dead_letter_queue
    }

    pub closed spec fn error_metrics(&self) -> ErrorMetrics {
        self.metrics
    }

    pub closed spec fn transient(&self) -> Option<RetryLimits> {
        self.transient_retry
    }

    pub closed spec fn is_running(&self) -> bool {
        self.running
    }

    pub closed spec fn timeout_ms(&self) -> u64 {
        self.recovery_timeout_ms
    }

    pub closed spec fn monitoring(&self) -> bool {
        self.error_monitoring_enabled
    }

    /// A stopped handler with no errors counted, no breakers and no dead letters, its
    /// metrics stamped `now_nanos`.
    pub fn new_at(config: ErrorHandlerConfig, now_nanos: i64) -> (h: ErrorHandler)
        ensures
            h.wf(),
            !h.is_running(),
            h.monitoring() == config.error_monitoring_enabled,
            h.transient() == config.transient_retry,
            h.timeout_ms() == config.recovery_timeout_ms,
            h.breakers().configs() == config.circuit_breaker_configs@,
            h.breakers().breakers() == Map::<Seq<char>, CircuitBreaker>::empty(),
            h.dead_letters().entries() == Seq::<DeadLetterEntry>::empty(),
            h.dead_letters().max_size() == config.dead_letter_queue_size,
            h.error_metrics().total_errors == 0,
            h.error_metrics().dead_letter_entries == 0,
            h.error_metrics().circuit_breaker_trips == 0,
            forall|c: ErrorClassification| #[trigger] h.error_metrics().count(c) == 0,
            h.error_metrics().last_updated_nanos == now_nanos,
    {
        ErrorHandler {
            transient_retry: config.transient_retry,
            recovery_timeout_ms: config.recovery_timeout_ms,
            error_monitoring_enabled: config.error_monitoring_enabled,
            circuit_breakers: ServiceBreakers::new(config.circuit_breaker_configs),
            dead_letter_queue: DeadLetterQueue::new(config.dead_letter_queue_size),
            metrics: ErrorMetrics::new_at(now_nanos),
            running: false,
        }
    }

    /// `new_at` at the current time.
    pub fn new(config: ErrorHandlerConfig) -> (h: ErrorHandler)
        ensures
            h.wf(),
            !h.is_running(),
            h.transient() == config.transient_retry,
            h.breakers().configs() == config.circuit_breaker_configs@,
            h.breakers().breakers() == Map::<Seq<char>, CircuitBreaker>::empty(),
            h.dead_letters().entries() == Seq::<DeadLetterEntry>::empty(),
            h.error_metrics().total_errors == 0,
            h.monitoring() == config.error_monitoring_enabled,
            h.timeout_ms() == config.recovery_timeout_ms,
            h.dead_letters().max_size() == config.dead_letter_queue_size,
            h.error_metrics().dead_letter_entries == 0,
            h.error_metrics().circuit_breaker_trips == 0,
            forall|c: ErrorClassification| #[trigger] h.error_metrics().count(c) == 0,
    {
        let now = utc_now_nanos();
        Self::new_at(config, now)
    }

    /// Mark the handler running; true when it was stopped and monitoring is enabled,
    /// that is when the monitoring task is to be started.
    pub fn start(&mut self) -> (start_monitoring: bool)
        ensures
            final(self).is_running(),
            start_monitoring == (!old(self).is_running() && old(self).monitoring()),
            final(self).breakers() == old(self).breakers(),
            final(self).dead_letters() == old(self).dead_letters(),
            final(self).error_metrics() == old(self).error_metrics(),
            final(self).monitoring() == old(self).monitoring(),
            final(self).transient() == old(self).transient(),
            final(self).wf() == old(self).wf(),
    {
        if self.running {
            return false;
        }
        self.running = true;
        self.error_monitoring_enabled
    }

    /// Mark the handler stopped.
    pub fn stop(&mut self)
        ensures
            !final(self).is_running(),
            final(self).breakers() == old(self).breakers(),
            final(self).dead_letters() == old(self).dead_letters(),
            final(self).error_metrics() == old(self).error_metrics(),
            final(self).monitoring() == old(self).monitoring(),
            final(self).transient() == old(self).transient(),
            final(self).wf() == old(self).wf(),
    {
        self.running = false;
    }

    /// The recovery timeout in milliseconds.
    pub fn recovery_timeout_ms(&self) -> (t: u64)
        ensures
            t == self.timeout_ms(),
    {
        self.recovery_timeout_ms
    }

    /// Begin handling `error` from `operation_name` on behalf of a service: count it;
    /// if the service's breaker refuses the call, record a failure with it and refuse
    /// with a circuit error stamped `now_nanos`; otherwise recover under the strategy
    /// the error calls for, or dead-letter the error when none applies.
    pub fn begin_handle_error_at(
        &mut self,
        error: ProactiveError,
        operation_name: &str,
        service_name: Option<&str>,
        breaker_clock_nanos: u64,
        now_nanos: i64,
        entry_id: String,
    ) -> (g: ErrorGate)
        requires
            old(self).wf(),
            old(self).error_metrics().total_errors < u64::MAX,
            old(self).error_metrics().dead_letter_entries < u64::MAX,
            old(self).breakers().with_breaker(service_of(service_name)).contains_key(service_of(service_name))
                ==> old(self).breakers().with_breaker(service_of(service_name))[service_of(service_name)].failure_count
                < u32::MAX,
        ensures
            final(self).wf(),
            final(self).error_metrics().total_errors == old(self).error_metrics().total_errors + 1,
            final(self).error_metrics().count(classification_of(error)) == old(self).error_metrics().count(
                classification_of(error),
            ) + 1,
            final(self).transient() == old(self).transient(),
            final(self).breakers().configs() == old(self).breakers().configs(),
            ({
                let svc = service_of(service_name);
                let with = old(self).breakers().with_breaker(svc);
                let refused = with.contains_key(svc) && !admits(with[svc], breaker_clock_nanos);
                if refused {
                    &&& g == ErrorGate::Refused(ProactiveError::CircuitBreakerOpen {
                        service: g->Refused_0->CircuitBreakerOpen_service,
                        last_failure_nanos: now_nanos,
                        failure_count: 1,
                    })
                    &&& g->Refused_0->CircuitBreakerOpen_service@ == svc
                    &&& final(self).breakers().breakers() == with.insert(
                        svc,
                        after_failure(after_check(with[svc], breaker_clock_nanos), breaker_clock_nanos),
                    )
                    &&& final(self).dead_letters() == old(self).dead_letters()
                } else {
                    &&& (with.contains_key(svc) ==> final(self).breakers().breakers() == with.insert(
                        svc,
                        after_check(with[svc], breaker_clock_nanos),
                    ))
                    &&& (!with.contains_key(svc) ==> final(self).breakers().breakers() == old(self).breakers().breakers())
                    &&& match g {
                        ErrorGate::Recover(st) => is_strategy_for(error, old(self).transient(), Some(st))
                            && final(self).dead_letters() == old(self).dead_letters()
                            && final(self).error_metrics().dead_letter_entries == old(self).error_metrics().dead_letter_entries,
                        ErrorGate::Refused(_) => false,
                        ErrorGate::GiveUp(e) => e == error && is_strategy_for(error, old(self).transient(), None)
                            && final(self).dead_letters().entries() == dead_letter_after(
                                old(self).dead_letters().entries(),
                                old(self).dead_letters().max_size(),
                                DeadLetterEntry {
                                    id: entry_id,
                                    original_operation: final(self).dead_letters().entries().last().original_operation,
                                    final_error: error,
                                    total_attempts: 0,
                                    first_failure_nanos: now_nanos,
                                    final_failure_nanos: now_nanos,
                                    escalated: false,
                                },
                            )
                            && final(self).dead_letters().entries().last().original_operation@ == operation_name@
                            && final(self).error_metrics().dead_letter_entries == old(self).error_metrics().dead_letter_entries + 1,
                    }
                }
            }),
    {
        let class = error.classify();
        self.metrics.record_error_at(class, now_nanos);
        let service: &str = match service_name {
            Some(s) => s,
            None => "default",
        };
        let ghost svc = service_of(service_name);
        assert(service@ == svc);
        let admitted = self.circuit_breakers.can_execute_at(service, breaker_clock_nanos);
        if admitted == Some(false) {
            self.circuit_breakers.record_failure_at(service, breaker_clock_nanos);
            return ErrorGate::Refused(ProactiveError::CircuitBreakerOpen {
                service: service.to_owned(),
                last_failure_nanos: now_nanos,
                failure_count: 1,
            });
        }
        match determine_recovery_strategy(&error, self.transient_retry) {
            Some(st) => ErrorGate::Recover(st),
            None => {
                let copy = error.duplicate();
                self.add_to_dead_letter_queue_at(operation_name, copy, entry_id, now_nanos);
                ErrorGate::GiveUp(error)
            },
        }
    }

    /// Whether the service's breaker lets a call at `breaker_clock_nanos` run; a service
    /// with no applicable configuration is never refused.
    pub fn breaker_admits_at(&mut self, service_name: Option<&str>, breaker_clock_nanos: u64) -> (ok: bool)
        requires
            old(self).wf(),
        ensures
            final(self).wf(),
            final(self).dead_letters() == old(self).dead_letters(),
            final(self).error_metrics() == old(self).error_metrics(),
            final(self).transient() == old(self).transient(),
            final(self).breakers().configs() == old(self).breakers().configs(),
            ({
                let svc = service_of(service_name);
                let with = old(self).breakers().with_breaker(svc);
                if with.contains_key(svc) {
                    ok == admits(with[svc], breaker_clock_nanos)
                        && final(self).breakers().breakers() == with.insert(svc, after_check(with[svc], breaker_clock_nanos))
                } else {
                    ok && final(self).breakers().breakers() == old(self).breakers().breakers()
                }
            }),
    {
        let service: &str = match service_name {
            Some(s) => s,
            None => "default",
        };
        match self.circuit_breakers.can_execute_at(service, breaker_clock_nanos) {
            Some(ok) => ok,
            None => true,
        }
    }

    /// Record that an operation of the service succeeded.
    pub fn record_operation_success(&mut self, service_name: Option<&str>)
        requires
            old(self).wf(),
            old(self).breakers().with_breaker(service_of(service_name)).contains_key(service_of(service_name))
                ==> old(self).breakers().with_breaker(service_of(service_name))[service_of(service_name)].success_count
                < u32::MAX,
        ensures
            final(self).wf(),
            final(self).dead_letters() == old(self).dead_letters(),
            final(self).error_metrics() == old(self).error_metrics(),
            final(self).transient() == old(self).transient(),
            final(self).breakers().configs() == old(self).breakers().configs(),
            ({
                let svc = service_of(service_name);
                let with = old(self).breakers().with_breaker(svc);
                final(self).breakers().breakers() == if with.contains_key(svc) {
                    with.insert(svc, after_success(with[svc]))
                } else {
                    old(self).breakers().breakers()
                }
            }),
    {
        let service: &str = match service_name {
            Some(s) => s,
            None => "default",
        };
        self.circuit_breakers.record_success(service);
    }

    /// Record that an operation of the service failed at `breaker_clock_nanos`.
    pub fn record_operation_failure_at(&mut self, service_name: Option<&str>, breaker_clock_nanos: u64)
        requires
            old(self).wf(),
            old(self).breakers().with_breaker(service_of(service_name)).contains_key(service_of(service_name))
                ==> old(self).breakers().with_breaker(service_of(service_name))[service_of(service_name)].failure_count
                < u32::MAX,
        ensures
            final(self).wf(),
            final(self).dead_letters() == old(self).dead_letters(),
            final(self).error_metrics() == old(self).error_metrics(),
            final(self).transient() == old(self).transient(),
            final(self).breakers().configs() == old(self).breakers().configs(),
            ({
                let svc = service_of(service_name);
                let with = old(self).breakers().with_breaker(svc);
                final(self).breakers().breakers() == if with.contains_key(svc) {
                    with.insert(svc, after_failure(with[svc], breaker_clock_nanos))
                } else {
                    old(self).breakers().breakers()
                }
            }),
    {
        let service: &str = match service_name {
            Some(s) => s,
            None => "default",
        };
        self.circuit_breakers.record_failure_at(service, breaker_clock_nanos);
    }

    /// Keep a failed operation in the dead letter queue and count it.
    pub fn add_to_dead_letter_queue_at(&mut self, operation: &str, error: ProactiveError, entry_id: String, now_nanos: i64)
        requires
            old(self).wf(),
            old(self).error_metrics().dead_letter_entries < u64::MAX,
        ensures
            final(self).wf(),
            final(self).breakers() == old(self).breakers(),
            final(self).transient() == old(self).transient(),
            final(self).dead_letters().max_size() == old(self).dead_letters().max_size(),
            final(self).dead_letters().entries() == dead_letter_after(
                old(self).dead_letters().entries(),
                old(self).dead_letters().max_size(),
                final(self).dead_letters().entries().last(),
            ),
            final(self).dead_letters().entries().last() == (DeadLetterEntry {
                id: entry_id,
                original_operation: final(self).dead_letters().entries().last().original_operation,
                final_error: error,
                total_attempts: 0,
                first_failure_nanos: now_nanos,
                final_failure_nanos: now_nanos,
                escalated: false,
            }),
            final(self).dead_letters().entries().last().original_operation@ == operation@,
            final(self).error_metrics().dead_letter_entries == old(self).error_metrics().dead_letter_entries + 1,
            final(self).error_metrics().total_errors == old(self).error_metrics().total_errors,
            forall|c: ErrorClassification| #[trigger] final(self).error_metrics().count(c) == old(self).error_metrics().count(c),
    {
        let entry = DeadLetterEntry::new_at(entry_id, operation, error, now_nanos);
        self.dead_letter_queue.add(entry);
        self.metrics.record_dead_letter();
    }

    /// The breaker of a service, made now from its configuration (or the default one)
    /// when it has none yet; `None` when no configuration applies.
    pub fn get_circuit_breaker(&mut self, service: &str) -> (r: Option<CircuitBreaker>)
        requires
            old(self).wf(),
        ensures
            final(self).wf(),
            final(self).dead_letters() == old(self).dead_letters(),
            final(self).error_metrics() == old(self).error_metrics(),
            final(self).transient() == old(self).transient(),
            final(self).breakers().configs() == old(self).breakers().configs(),
            final(self).breakers().breakers() == old(self).breakers().with_breaker(service@),
            r == (if final(self).breakers().breakers().contains_key(service@) {
                Some(final(self).breakers().breakers()[service@])
            } else {
                None
            }),
    {
        self.circuit_breakers.get_circuit_breaker(service)
    }

    /// Error counts.
    pub fn get_metrics(&self) -> (m: &ErrorMetrics)
        ensures
            *m == self.error_metrics(),
    {
        &self.metrics
    }

    /// Dead letter queue entries, oldest first.
    pub fn get_dead_letter_entries(&self) -> (v: Vec<DeadLetterEntry>)
        ensures
            v@ == self.dead_letters().entries(),
    {
        self.dead_letter_queue.get_entries()
    }
}

} // verus!
