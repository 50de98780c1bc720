//! Delivery tracking for notifications: per-channel attempts, the overall status they
//! add up to, the verification verdicts for each channel kind and delivery timing.

use vstd::prelude::*;
use std::collections::HashMap;
use crate::notification_system::{
    system_error_debug, system_error_text, Notification, NotificationChannel, NotificationSystemError, NotificationType,
};
use crate::text::{contains_seq, str_contains};
use crate::clock::new_uuid_v4;

verus! {

/// Errors that can occur in the delivery verification system.
#[derive(Debug, Clone, PartialEq, Eq)]
pub enum DeliveryVerificationError {
    NotInitialized,
    DeliveryStatusNotFound { notification_id: String },
    ChannelVerifierNotFound { channel: String },
    VerificationFailed { channel: String, reason: String },
    PerformanceMonitoringError(String),
    AuditTrailError(String),
    ConfigurationError(String),
    ConcurrentAccessError(String),
    StorageError(String),
}

/// Delivery status for a notification attempt. Times are nanoseconds since the Unix
/// epoch, durations nanoseconds.
#[derive(Debug, Clone)]
pub enum DeliveryStatus {
    /// Delivery was attempted but not yet completed
    Pending { started_at_nanos: i64 },
    /// Delivery completed successfully
    Delivered { completed_at_nanos: i64, delivery_time_nanos: u64, verification_details: HashMap<String, String> },
    /// Delivery failed with error details
    Failed { failed_at_nanos: i64, error_message: String, error_type: String, retry_count: u32 },
    /// Delivery was retried
    Retrying { retry_at_nanos: i64, attempt_number: u32, last_error: String },
}

/// Individual delivery attempt for a specific channel.
#[derive(Debug, Clone)]
pub struct DeliveryAttempt {
    pub attempt_id: String,
    pub notification_id: String,
    pub channel_type: String,
    pub channel_details: String,
    pub status: DeliveryStatus,
    pub started_at_nanos: i64,
    pub verification_data: HashMap<String, String>,
}

/// The kind name of a channel.
pub open spec fn channel_type_of(c: NotificationChannel) -> Seq<char> {
    match c {
        NotificationChannel::CLI => "CLI"@,
        NotificationChannel::File { .. } => "File"@,
        NotificationChannel::API { .. } => "API"@,
    }
}

/// Where a channel delivers to.
pub open spec fn channel_details_of(c: NotificationChannel) -> Seq<char> {
    match c {
        NotificationChannel::CLI => "stdout/stderr"@,
        NotificationChannel::File { path } => "file://"@ + path@,
        NotificationChannel::API { endpoint } => endpoint@,
    }
}

/// The kind name of a channel.
pub fn channel_type_name(channel: &NotificationChannel) -> (s: String)
    ensures
        s@ == channel_type_of(*channel),
{
    match channel {
        NotificationChannel::CLI => "CLI".to_owned(),
        NotificationChannel::File { .. } => "File".to_owned(),
        NotificationChannel::API { .. } => "API".to_owned(),
    }
}

/// Where a channel delivers to.
pub fn channel_details_string(channel: &NotificationChannel) -> (s: String)
    ensures
        s@ == channel_details_of(*channel),
{
    match channel {
        NotificationChannel::CLI => "stdout/stderr".to_owned(),
        NotificationChannel::File { path } => {
            let mut s = String::new();
            s.append("file://");
            s.append(path.as_str());
            s
        },
        NotificationChannel::API { endpoint } => endpoint.clone(),
    }
}

impl DeliveryAttempt {
    /// A pending attempt to deliver notification `notification_id` on `channel`, started
    /// at `now_nanos`.
    pub fn new_at(attempt_id: String, notification_id: String, channel: &NotificationChannel, now_nanos: i64) -> (a: DeliveryAttempt)
        ensures
            a.attempt_id == attempt_id,
            a.notification_id == notification_id,
            a.channel_type@ == channel_type_of(*channel),
            a.channel_details@ == channel_details_of(*channel),
            a.status matches DeliveryStatus::Pending { started_at_nanos } && started_at_nanos == now_nanos,
            a.started_at_nanos == now_nanos,
            a.verification_data@ == Map::<String, String>::empty(),
    {
        DeliveryAttempt {
            attempt_id,
            notification_id,
            channel_type: channel_type_name(channel),
            channel_details: channel_details_string(channel),
            status: DeliveryStatus::Pending { started_at_nanos: now_nanos },
            started_at_nanos: now_nanos,
            verification_data: HashMap::new(),
        }
    }
}

/// Overall delivery status across all channels.
#[derive(Debug, Clone, Copy, PartialEq, Eq, Structural)]
pub enum OverallDeliveryStatus {
    /// All channels pending
    AllPending,
    /// Some channels delivered, some pending
    PartiallyDelivered,
    /// All channels delivered successfully
    FullyDelivered,
    /// Some or all channels failed
    Failed,
    /// Mixed success and failure states
    Mixed,
}

/// Attempts that delivered.
pub open spec fn delivered_count(s: Seq<DeliveryAttempt>) -> nat
    decreases s.len(),
{
    if s.len() == 0 {
        0
    } else {
        delivered_count(s.drop_last()) + if s.last().status is Delivered { 1nat } else { 0nat }
    }
}

/// Attempts that failed.
pub open spec fn failed_count(s: Seq<DeliveryAttempt>) -> nat
    decreases s.len(),
{
    if s.len() == 0 {
        0
    } else {
        failed_count(s.drop_last()) + if s.last().status is Failed { 1nat } else { 0nat }
    }
}

/// Attempts still pending or being retried.
pub open spec fn pending_count(s: Seq<DeliveryAttempt>) -> nat
    decreases s.len(),
{
    if s.len() == 0 {
        0
    } else {
        pending_count(s.drop_last()) + if s.last().status is Pending || s.last().status is Retrying { 1nat } else { 0nat }
    }
}

/// The overall status of a set of attempts: fully delivered when every attempt
/// delivered; partially delivered when some delivered and some are pending; mixed when
/// some delivered and some failed; failed when some failed and none delivered;
/// otherwise all pending.
pub open spec fn overall_status(s: Seq<DeliveryAttempt>) -> OverallDeliveryStatus {
    let d = delivered_count(s);
    let f = failed_count(s);
    let p = pending_count(s);
    if d == s.len() {
        OverallDeliveryStatus::FullyDelivered
    } else if d > 0 && p > 0 {
        OverallDeliveryStatus::PartiallyDelivered
    } else if f > 0 && d > 0 {
        OverallDeliveryStatus::Mixed
    } else if f > 0 {
        OverallDeliveryStatus::Failed
    } else {
        OverallDeliveryStatus::AllPending
    }
}

proof fn lemma_counts_partition(s: Seq<DeliveryAttempt>)
    ensures
        delivered_count(s) + failed_count(s) + pending_count(s) == s.len(),
    decreases s.len(),
{
    if s.len() > 0 {
        lemma_counts_partition(s.drop_last());
    }
}

/// Calculate the overall status of a notification's delivery attempts.
pub fn calculate_overall_status(attempts: &Vec<DeliveryAttempt>) -> (r: OverallDeliveryStatus)
    ensures
        r == overall_status(attempts@),
{
    let mut delivered: usize = 0;
    let mut failed: usize = 0;
    let mut pending: usize = 0;
    let mut i: usize = 0;
    while i < attempts.len()
        invariant
            i <= attempts@.len(),
            delivered == delivered_count(attempts@.take(i as int)),
            failed == failed_count(attempts@.take(i as int)),
            pending == pending_count(attempts@.take(i as int)),
            delivered + failed + pending == i,
        decreases attempts.len() - i,
    {
        proof {
            assert(attempts@.take(i + 1).drop_last() =~= attempts@.take(i as int));
            lemma_counts_partition(attempts@.take(i as int));
        }
        match &attempts[i].status {
            DeliveryStatus::Delivered { .. } => delivered = delivered + 1,
            DeliveryStatus::Failed { .. } => failed = failed + 1,
            DeliveryStatus::Pending { .. } => pending = pending + 1,
            DeliveryStatus::Retrying { .. } => pending = pending + 1,
        }
        i = i + 1;
    }
    assert(attempts@.take(attempts@.len() as int) =~= attempts@);
    if delivered == attempts.len() {
        OverallDeliveryStatus::FullyDelivered
    } else if delivered > 0 && pending > 0 {
        OverallDeliveryStatus::PartiallyDelivered
    } else if failed > 0 && delivered > 0 {
        OverallDeliveryStatus::Mixed
    } else if failed > 0 {
        OverallDeliveryStatus::Failed
    } else {
        OverallDeliveryStatus::AllPending
    }
}

/// The overall status is fully delivered exactly when no attempt is pending, retrying
/// or failed, and all pending exactly when nothing delivered or failed (and there is
/// at least one attempt).
pub proof fn lemma_overall_status_meaning(s: Seq<DeliveryAttempt>)
    ensures
        overall_status(s) == OverallDeliveryStatus::FullyDelivered <==> failed_count(s) == 0 && pending_count(s) == 0,
        s.len() > 0 ==> (overall_status(s) == OverallDeliveryStatus::AllPending <==> pending_count(s) == s.len()),
        overall_status(s) == OverallDeliveryStatus::Failed ==> delivered_count(s) == 0 && failed_count(s) > 0,
{
    lemma_counts_partition(s);
}

/// Whether a channel is of the named kind (`CLI`, `File` or `API`).
pub fn matches_channel_type(channel: &NotificationChannel, channel_type: &str) -> (r: bool)
    ensures
        r == (channel_type@ == channel_type_of(*channel)),
{
    let name = channel_type_name(channel);
    crate::text::str_equal(name.as_str(), channel_type)
}

/// Channel-specific verification rules.
#[derive(Debug, Clone, PartialEq, Eq)]
pub struct ChannelVerificationRules {
    pub verify_content: bool,
    pub verify_timing: bool,
    pub verify_format: bool,
    pub custom_validations: Vec<String>,
    pub timeout_override_ms: Option<u64>,
}

impl Default for ChannelVerificationRules {
    fn default() -> (r: ChannelVerificationRules)
        ensures
            r.verify_content,
            r.verify_timing,
            r.verify_format,
            r.custom_validations@ == Seq::<String>::empty(),
            r.timeout_override_ms.is_none(),
    {
        ChannelVerificationRules {
            verify_content: true,
            verify_timing: true,
            verify_format: true,
            custom_validations: Vec::new(),
            timeout_override_ms: None,
        }
    }
}

/// Configuration for delivery verification system.
#[derive(Debug, Clone)]
pub struct DeliveryVerificationConfig {
    pub enable_delivery_tracking: bool,
    pub enable_performance_monitoring: bool,
    pub enable_audit_trails: bool,
    pub performance_tracking_window_ms: u64,
    pub audit_retention_days: u32,
    pub max_concurrent_verifications: usize,
    pub verification_timeout_ms: u64,
    pub enable_detailed_logging: bool,
    pub channel_verification_rules: HashMap<String, ChannelVerificationRules>,
}

impl Default for DeliveryVerificationConfig {
    fn default() -> (c: DeliveryVerificationConfig)
        ensures
            c.enable_delivery_tracking,
            c.enable_performance_monitoring,
            c.enable_audit_trails,
            c.performance_tracking_window_ms == 300_000,
            c.audit_retention_days == 30,
            c.max_concurrent_verifications == 100,
            c.verification_timeout_ms == 10_000,
            c.enable_detailed_logging,
            c.channel_verification_rules@ == Map::<String, ChannelVerificationRules>::empty(),
    {
        DeliveryVerificationConfig {
            enable_delivery_tracking: true,
            enable_performance_monitoring: true,
            enable_audit_trails: true,
            performance_tracking_window_ms: 300_000,
            audit_retention_days: 30,
            max_concurrent_verifications: 100,
            verification_timeout_ms: 10_000,
            enable_detailed_logging: true,
            channel_verification_rules: HashMap::new(),
        }
    }
}

/// Verification result for a specific delivery attempt.
#[derive(Debug, Clone)]
pub struct ChannelVerificationResult {
    pub verification_successful: bool,
    pub delivery_time_nanos: u64,
    pub verification_details: HashMap<String, String>,
    pub error_details: Option<String>,
    pub file_exists: bool,
    pub content_matches: bool,
    pub api_response_code: Option<u16>,
    pub cli_output_captured: bool,
}

/// An endpoint that only stands in for a real one: its text mentions `mock`, `test`
/// or `invalid`.
pub open spec fn is_mock_endpoint(endpoint: Seq<char>) -> bool {
    contains_seq(endpoint, "mock"@) || contains_seq(endpoint, "test"@) || contains_seq(endpoint, "invalid"@)
}

/// The verdict on an API delivery: mock endpoints receive nothing (404); any other
/// endpoint is taken to have received the notification (200).
pub fn verify_api_endpoint(endpoint: &str) -> (r: ChannelVerificationResult)
    ensures
        r.verification_successful == !is_mock_endpoint(endpoint@),
        r.api_response_code == (if is_mock_endpoint(endpoint@) { Some(404u16) } else { Some(200u16) }),
        is_mock_endpoint(endpoint@) ==> (r.error_details matches Some(d) && d@ == "Mock endpoint - no actual delivery"@),
        !is_mock_endpoint(endpoint@) ==> r.error_details.is_none(),
        !r.file_exists,
        !r.content_matches,
        !r.cli_output_captured,
        r.delivery_time_nanos == 1_000_000,
{
    let mut details: HashMap<String, String> = HashMap::new();
    details.insert("endpoint".to_owned(), endpoint.to_owned());
    let is_mock = str_contains(endpoint, "mock") || str_contains(endpoint, "test") || str_contains(endpoint, "invalid");
    if is_mock {
        ChannelVerificationResult {
            verification_successful: false,
            delivery_time_nanos: 1_000_000,
            verification_details: details,
            error_details: Some("Mock endpoint - no actual delivery".to_owned()),
            file_exists: false,
            content_matches: false,
            api_response_code: Some(404),
            cli_output_captured: false,
        }
    } else {
        details.insert("verification_method".to_owned(), "http_check".to_owned());
        ChannelVerificationResult {
            verification_successful: true,
            delivery_time_nanos: 1_000_000,
            verification_details: details,
            error_details: None,
            file_exists: false,
            content_matches: false,
            api_response_code: Some(200),
            cli_output_captured: false,
        }
    }
}

/// The verdict on a file delivery, given whether the file exists and, when content is
/// checked, the file's text if it could be read: the delivery is verified when the
/// file exists and, if content is checked, the text holds both title and message.
pub fn verify_file_contents(
    file_exists: bool,
    verify_content: bool,
    content: Option<&str>,
    title: &str,
    message: &str,
) -> (r: ChannelVerificationResult)
    ensures
        ({
            let matches = file_exists && verify_content && match content {
                Some(c) => contains_seq(c@, title@) && contains_seq(c@, message@),
                None => false,
            };
            &&& r.content_matches == matches
            &&& r.file_exists == file_exists
            &&& r.verification_successful == (file_exists && (!verify_content || matches))
            &&& !file_exists ==> (r.error_details matches Some(d) && d@ == "File does not exist"@)
            &&& file_exists && verify_content && !matches ==> (r.error_details matches Some(d) && d@
                == "File content does not match notification"@)
            &&& file_exists && (!verify_content || matches) ==> r.error_details.is_none()
        }),
        r.api_response_code.is_none(),
        !r.cli_output_captured,
{
    let mut content_matches = false;
    if file_exists && verify_content {
        match content {
            Some(c) => {
                content_matches = str_contains(c, title) && str_contains(c, message);
            },
            None => {},
        }
    }
    let error_details = if !file_exists {
        Some("File does not exist".to_owned())
    } else if verify_content && !content_matches {
        Some("File content does not match notification".to_owned())
    } else {
        None
    };
    ChannelVerificationResult {
        verification_successful: file_exists && (!verify_content || content_matches),
        delivery_time_nanos: 1_000_000,
        verification_details: HashMap::new(),
        error_details,
        file_exists,
        content_matches,
        api_response_code: None,
        cli_output_captured: false,
    }
}

/// Counters of verified deliveries and their timing.
#[derive(Debug, Clone, Copy, PartialEq, Eq, Structural)]
pub struct DeliveryTiming {
    pub total_deliveries: u64,
    pub successful_deliveries: u64,
    pub failed_deliveries: u64,
    pub average_delivery_time_nanos: u64,
    pub min_delivery_time_nanos: u64,
    pub max_delivery_time_nanos: u64,
}

/// The timing after one more delivery: counted as success or failure, the minimum and
/// maximum widened, and the running average recomputed from the total time.
pub open spec fn timing_after(m: DeliveryTiming, delivery_time: u64, success: bool) -> DeliveryTiming {
    let n = m.total_deliveries + 1;
    DeliveryTiming {
        total_deliveries: n as u64,
        successful_deliveries: if success { (m.successful_deliveries + 1) as u64 } else { m.successful_deliveries },
        failed_deliveries: if success { m.failed_deliveries } else { (m.failed_deliveries + 1) as u64 },
        average_delivery_time_nanos: ((m.average_delivery_time_nanos * m.total_deliveries + delivery_time) / n) as u64,
        min_delivery_time_nanos: if delivery_time < m.min_delivery_time_nanos { delivery_time } else { m.min_delivery_time_nanos },
        max_delivery_time_nanos: if delivery_time > m.max_delivery_time_nanos { delivery_time } else { m.max_delivery_time_nanos },
    }
}

impl DeliveryTiming {
    /// No deliveries yet: the minimum starts at the largest time.
    pub open spec fn new_spec() -> DeliveryTiming {
        DeliveryTiming {
            total_deliveries: 0,
            successful_deliveries: 0,
            failed_deliveries: 0,
            average_delivery_time_nanos: 0,
            min_delivery_time_nanos: u64::MAX,
            max_delivery_time_nanos: 0,
        }
    }

    /// No deliveries yet: the minimum starts at the largest time.
    pub fn new() -> (m: DeliveryTiming)
        ensures
            m == Self::new_spec(),
    {
        DeliveryTiming {
            total_deliveries: 0,
            successful_deliveries: 0,
            failed_deliveries: 0,
            average_delivery_time_nanos: 0,
            min_delivery_time_nanos: u64::MAX,
            max_delivery_time_nanos: 0,
        }
    }

    /// Count one delivery of the given duration.
    pub fn record(&mut self, delivery_time_nanos: u64, success: bool)
        requires
            old(self).total_deliveries < u64::MAX,
            old(self).successful_deliveries < u64::MAX,
            old(self).failed_deliveries < u64::MAX,
            old(self).average_delivery_time_nanos * old(self).total_deliveries + delivery_time_nanos <= u64::MAX,
        ensures
            *final(self) == timing_after(*old(self), delivery_time_nanos, success),
    {
        let previous = self.total_deliveries;
        self.total_deliveries = previous + 1;
        if success {
            self.successful_deliveries = self.successful_deliveries + 1;
        } else {
            self.failed_deliveries = self.failed_deliveries + 1;
        }
        if delivery_time_nanos < self.min_delivery_time_nanos {
            self.min_delivery_time_nanos = delivery_time_nanos;
        }
        if delivery_time_nanos > self.max_delivery_time_nanos {
            self.max_delivery_time_nanos = delivery_time_nanos;
        }
        let total_time = self.average_delivery_time_nanos * previous + delivery_time_nanos;
        self.average_delivery_time_nanos = total_time / self.total_deliveries;
    }
}

/// Every counted delivery is a success or a failure, and the average lies between the
/// smallest and largest delivery time seen.
pub proof fn lemma_timing_consistent(m: DeliveryTiming, t: u64, success: bool)
    requires
        m.total_deliveries == m.successful_deliveries + m.failed_deliveries,
        m.total_deliveries < u64::MAX,
        m.total_deliveries > 0 ==> m.min_delivery_time_nanos <= m.average_delivery_time_nanos <= m.max_delivery_time_nanos,
        m.average_delivery_time_nanos * m.total_deliveries + t <= u64::MAX,
    ensures
        timing_after(m, t, success).total_deliveries == timing_after(m, t, success).successful_deliveries
            + timing_after(m, t, success).failed_deliveries,
        timing_after(m, t, success).min_delivery_time_nanos <= timing_after(m, t, success).average_delivery_time_nanos
            <= timing_after(m, t, success).max_delivery_time_nanos,
{
    let n = m.total_deliveries as int;
    let a = m.average_delivery_time_nanos as int;
    let r = timing_after(m, t, success);
    let lo = r.min_delivery_time_nanos as int;
    let hi = r.max_delivery_time_nanos as int;
    let total = a * n + t;
    assert(lo * (n + 1) <= total) by (nonlinear_arith)
        requires
            lo <= t,
            n > 0 ==> lo <= a,
            n >= 0,
            total == a * n + t,
            lo >= 0,
    {
        if n > 0 {
            assert(lo * n <= a * n);
        }
    }
    assert(total <= hi * (n + 1)) by (nonlinear_arith)
        requires
            t <= hi,
            n > 0 ==> a <= hi,
            n >= 0,
            a >= 0,
            total == a * n + t,
    {
        if n > 0 {
            assert(a * n <= hi * n);
        } else {
            assert(a * n == 0);
        }
    }
    assert(lo <= total / (n + 1)) by (nonlinear_arith)
        requires
            lo * (n + 1) <= total,
            n + 1 > 0,
    ;
    assert(total / (n + 1) <= hi) by (nonlinear_arith)
        requires
            total <= hi * (n + 1),
            n + 1 > 0,
    ;
}

/// The status recorded for an attempt once delivery was tried: delivered, or failed
/// with the error's text and debug rendering.
pub fn status_after_delivery(
    result: &Result<(), NotificationSystemError>,
    error_message: String,
    error_type: String,
    now_nanos: i64,
    delivery_time_nanos: u64,
) -> (s: DeliveryStatus)
    ensures
        result is Ok ==> (s matches DeliveryStatus::Delivered { completed_at_nanos, delivery_time_nanos: d, verification_details }
            && completed_at_nanos == now_nanos && d == delivery_time_nanos && verification_details@ == Map::<String, String>::empty()),
        result is Err ==> (s matches DeliveryStatus::Failed { failed_at_nanos, error_message: m, error_type: t, retry_count }
            && failed_at_nanos == now_nanos && m == error_message && t == error_type && retry_count == 0),
{
    match result {
        Ok(_) => DeliveryStatus::Delivered {
            completed_at_nanos: now_nanos,
            delivery_time_nanos,
            verification_details: HashMap::new(),
        },
        Err(_) => DeliveryStatus::Failed {
            failed_at_nanos: now_nanos,
            error_message,
            error_type,
            retry_count: 0,
        },
    }
}

/// The status an attempt records once delivery was tried at `now_nanos`, taking
/// `delivery_time_nanos`: delivered with no verification details, or failed with the
/// error's message and debug rendering and no retries.
pub open spec fn records_result(
    s: DeliveryStatus,
    result: Result<(), NotificationSystemError>,
    now_nanos: i64,
    delivery_time_nanos: u64,
) -> bool {
    match result {
        Ok(_) => s matches DeliveryStatus::Delivered { completed_at_nanos, delivery_time_nanos: d, verification_details }
            && completed_at_nanos == now_nanos && d == delivery_time_nanos && verification_details@ == Map::<String, String>::empty(),
        Err(e) => s matches DeliveryStatus::Failed { failed_at_nanos, error_message, error_type, retry_count }
            && failed_at_nanos == now_nanos && error_message@ == system_error_text(e)
            && error_type@ == system_error_debug(e) && retry_count == 0,
    }
}

/// Delivery tracking for one notification.
#[derive(Debug)]
pub struct NotificationDeliveryStatus {
    pub notification_id: String,
    pub title: String,
    pub notification_type: NotificationType,
    pub attempts: Vec<DeliveryAttempt>,
    pub overall_status: OverallDeliveryStatus,
    pub created_at_nanos: i64,
    pub last_updated_nanos: i64,
}

/// Audit trail entry for a delivery event, stamped in nanoseconds since the Unix epoch.
#[derive(Debug, Clone, PartialEq, Eq)]
pub struct AuditTrailEntry {
    pub entry_id: String,
    pub notification_id: String,
    pub event_type: String,
    pub event_timestamp_nanos: i64,
    pub channel_type: Option<String>,
    pub success: bool,
    pub error_message: Option<String>,
}

impl AuditTrailEntry {
    /// A field-by-field copy.
    pub fn duplicate(&self) -> (r: AuditTrailEntry)
        ensures
            r == *self,
    {
        AuditTrailEntry {
            entry_id: self.entry_id.clone(),
            notification_id: self.notification_id.clone(),
            event_type: self.event_type.clone(),
            event_timestamp_nanos: self.event_timestamp_nanos,
            channel_type: match &self.channel_type {
                Some(c) => Some(c.clone()),
                None => None,
            },
            success: self.success,
            error_message: match &self.error_message {
                Some(m) => Some(m.clone()),
                None => None,
            },
        }
    }
}

/// The position of the first attempt on a channel of kind `ty`, or -1.
pub open spec fn attempt_index(s: Seq<DeliveryAttempt>, ty: Seq<char>) -> int
    decreases s.len(),
{
    if s.len() == 0 {
        -1
    } else {
        let j = attempt_index(s.drop_last(), ty);
        if j >= 0 {
            j
        } else if s.last().channel_type@ == ty {
            s.len() - 1
        } else {
            -1
        }
    }
}

proof fn lemma_attempt_index_prefix(s: Seq<DeliveryAttempt>, n: int, ty: Seq<char>)
    requires
        0 <= n <= s.len(),
        attempt_index(s.take(n), ty) >= 0,
    ensures
        attempt_index(s, ty) == attempt_index(s.take(n), ty),
    decreases s.len() - n,
{
    if n < s.len() {
        assert(s.take(n + 1).drop_last() =~= s.take(n));
        lemma_attempt_index_prefix(s, n + 1, ty);
    } else {
        assert(s.take(n) =~= s);
    }
}

proof fn lemma_attempt_index_range(s: Seq<DeliveryAttempt>, ty: Seq<char>)
    ensures
        -1 <= attempt_index(s, ty) < s.len(),
        attempt_index(s, ty) >= 0 ==> s[attempt_index(s, ty)].channel_type@ == ty,
    decreases s.len(),
{
    if s.len() > 0 {
        lemma_attempt_index_range(s.drop_last(), ty);
        let j = attempt_index(s.drop_last(), ty);
        if j >= 0 {
            assert(s[j] == s.drop_last()[j]);
        }
    }
}

/// Position of the first attempt on a channel of kind `ty`.
fn find_attempt(attempts: &Vec<DeliveryAttempt>, ty: &str) -> (r: Option<usize>)
    ensures
        match r {
            Some(j) => j == attempt_index(attempts@, ty@) && j < attempts@.len(),
            None => attempt_index(attempts@, ty@) == -1,
        },
{
    let mut i: usize = 0;
    while i < attempts.len()
        invariant
            i <= attempts@.len(),
            attempt_index(attempts@.take(i as int), ty@) == -1,
        decreases attempts.len() - i,
    {
        assert(attempts@.take(i + 1).drop_last() =~= attempts@.take(i as int));
        if crate::text::str_equal(attempts[i].channel_type.as_str(), ty) {
            proof { lemma_attempt_index_prefix(attempts@, i as int + 1, ty@); }
            return Some(i);
        }
        i = i + 1;
    }
    assert(attempts@.take(attempts@.len() as int) =~= attempts@);
    None
}

/// The status of a notification after delivery on a channel of kind `ty` was tried at
/// `now_nanos`: its first attempt on that kind records the result, the overall status
/// is recomputed and the status stamped.
pub open spec fn status_updated(
    old_status: NotificationDeliveryStatus,
    new_status: NotificationDeliveryStatus,
    ty: Seq<char>,
    result: Result<(), NotificationSystemError>,
    now_nanos: i64,
) -> bool {
    let j = attempt_index(old_status.attempts@, ty);
    let a0 = old_status.attempts@;
    let a1 = new_status.attempts@;
    &&& new_status.notification_id == old_status.notification_id
    &&& new_status.title == old_status.title
    &&& new_status.notification_type == old_status.notification_type
    &&& new_status.created_at_nanos == old_status.created_at_nanos
    &&& new_status.last_updated_nanos == now_nanos
    &&& new_status.overall_status == overall_status(a1)
    &&& a1.len() == a0.len()
    &&& forall|k: int| 0 <= k < a0.len() && k != j ==> #[trigger] a1[k] == a0[k]
    &&& j >= 0 ==> a1[j] == DeliveryAttempt { status: a1[j].status, ..a0[j] }
        && records_result(a1[j].status, result, now_nanos, DELIVERY_TIME_NANOS)
}

/// The delivery time recorded for every attempt: 50 milliseconds.
pub const DELIVERY_TIME_NANOS: u64 = 50_000_000;

/// A fresh status for a notification tracked at `now_nanos`: one pending attempt per
/// channel, in order.
pub open spec fn fresh_status(st: NotificationDeliveryStatus, n: Notification, now_nanos: i64) -> bool {
    &&& st.notification_id == n.id
    &&& st.title == n.title
    &&& st.notification_type == n.notification_type
    &&& st.overall_status == OverallDeliveryStatus::AllPending
    &&& st.created_at_nanos == now_nanos
    &&& st.last_updated_nanos == now_nanos
    &&& st.attempts@.len() == n.channels@.len()
    &&& forall|k: int| 0 <= k < n.channels@.len() ==> {
        let a = #[trigger] st.attempts@[k];
        &&& a.notification_id == n.id
        &&& a.channel_type@ == channel_type_of(n.channels@[k])
        &&& a.channel_details@ == channel_details_of(n.channels@[k])
        &&& a.status matches DeliveryStatus::Pending { started_at_nanos } && started_at_nanos == now_nanos
        &&& a.started_at_nanos == now_nanos
    }
}

/// Record the result of delivery on a channel of kind `ty` in a notification's status.
fn apply_result(
    status: NotificationDeliveryStatus,
    ty: &str,
    result: &Result<(), NotificationSystemError>,
    now_nanos: i64,
) -> (r: NotificationDeliveryStatus)
    ensures
        status_updated(status, r, ty@, *result, now_nanos),
{
    let ghost s0 = status;
    let mut st = status;
    proof { lemma_attempt_index_range(st.attempts@, ty@); }
    match find_attempt(&st.attempts, ty) {
        Some(j) => {
            let mut a = st.attempts.remove(j);
            let (msg, dbg) = match result {
                Ok(_) => (String::new(), String::new()),
                Err(e) => (e.to_string(), e.debug_text()),
            };
            a.status = status_after_delivery(result, msg, dbg, now_nanos, DELIVERY_TIME_NANOS);
            st.attempts.insert(j, a);
            assert forall|k: int| 0 <= k < s0.attempts@.len() && k != j implies #[trigger] st.attempts@[k] == s0.attempts@[k] by {}
        },
        None => {},
    }
    st.overall_status = calculate_overall_status(&st.attempts);
    st.last_updated_nanos = now_nanos;
    st
}

/// Delivery statuses keyed by notification identifier, each identifier once.
#[derive(Debug)]
pub struct DeliveryStatusTable {
    statuses: Vec<NotificationDeliveryStatus>,
}

impl DeliveryStatusTable {
    pub closed spec fn wf(&self) -> bool {
        forall|i: int, j: int|
            0 <= i < j < self.statuses@.len() ==> #[trigger] self.statuses@[i].notification_id@
                != #[trigger] self.statuses@[j].notification_id@
    }

    /// The statuses by notification identifier.
    pub closed spec fn view_map(&self) -> Map<Seq<char>, NotificationDeliveryStatus> {
        Map::new(
            |id: Seq<char>| exists|i: int| 0 <= i < self.statuses@.len() && self.statuses@[i].notification_id@ == id,
            |id: Seq<char>| self.statuses@[choose|i: int| 0 <= i < self.statuses@.len() && self.statuses@[i].notification_id@ == id],
        )
    }

    pub fn new() -> (t: DeliveryStatusTable)
        ensures
            t.wf(),
            t.view_map() == Map::<Seq<char>, NotificationDeliveryStatus>::empty(),
    {
        let t = DeliveryStatusTable { statuses: Vec::new() };
        assert(t.view_map() =~= Map::<Seq<char>, NotificationDeliveryStatus>::empty());
        t
    }

    fn find(&self, id: &str) -> (r: Option<usize>)
        ensures
            match r {
                Some(i) => i < self.statuses@.len() && self.statuses@[i as int].notification_id@ == id@,
                None => forall|i: int| 0 <= i < self.statuses@.len() ==> self.statuses@[i].notification_id@ != id@,
            },
    {
        let mut i: usize = 0;
        while i < self.statuses.len()
            invariant
                i <= self.statuses@.len(),
                forall|k: int| 0 <= k < i ==> self.statuses@[k].notification_id@ != id@,
            decreases self.statuses.len() - i,
        {
            if crate::text::str_equal(self.statuses[i].notification_id.as_str(), id) {
                return Some(i);
            }
            i = i + 1;
        }
        None
    }

    proof fn lemma_index_of(&self, i: int)
        requires
            self.wf(),
            0 <= i < self.statuses@.len(),
        ensures
            self.view_map().contains_key(self.statuses@[i].notification_id@),
            self.view_map()[self.statuses@[i].notification_id@] == self.statuses@[i],
    {
        let id = self.statuses@[i].notification_id@;
        let j = choose|j: int| 0 <= j < self.statuses@.len() && self.statuses@[j].notification_id@ == id;
        if j != i {
            if j < i {
                assert(self.statuses@[j].notification_id@ != self.statuses@[i].notification_id@);
            } else {
                assert(self.statuses@[i].notification_id@ != self.statuses@[j].notification_id@);
            }
        }
    }

    /// The status of notification `id`, if tracked.
    pub fn get(&self, id: &str) -> (r: Option<&NotificationDeliveryStatus>)
        requires
            self.wf(),
        ensures
            match r {
                Some(st) => self.view_map().contains_key(id@) && self.view_map()[id@] == *st,
                None => !self.view_map().contains_key(id@),
            },
    {
        match self.find(id) {
            Some(i) => {
                proof { self.lemma_index_of(i as int); }
                Some(&self.statuses[i])
            },
            None => None,
        }
    }

    /// Replace the status at position `i` by one for the same notification.
    fn replace_at(&mut self, i: usize, st: NotificationDeliveryStatus)
        requires
            old(self).wf(),
            i < old(self).statuses@.len(),
            st.notification_id@ == old(self).statuses@[i as int].notification_id@,
        ensures
            final(self).wf(),
            final(self).view_map() == old(self).view_map().insert(st.notification_id@, st),
    {
        let ghost m0 = old(self).view_map();
        let ghost key = st.notification_id@;
        let ghost st0 = st;
        let _ = self.statuses.remove(i);
        self.statuses.insert(i, st);
        proof {
            assert(self.statuses@ =~= old(self).statuses@.update(i as int, st0));
            assert forall|a: int, c: int| 0 <= a < c < self.statuses@.len() implies #[trigger] self.statuses@[a].notification_id@
                != #[trigger] self.statuses@[c].notification_id@ by {
                assert(old(self).statuses@[a].notification_id@ != old(self).statuses@[c].notification_id@);
            }
            assert forall|s: Seq<char>| #[trigger] self.view_map().contains_key(s) == m0.insert(key, st0).contains_key(s) by {
                if m0.contains_key(s) {
                    let k = choose|k: int| 0 <= k < old(self).statuses@.len() && old(self).statuses@[k].notification_id@ == s;
                    assert(self.statuses@[k].notification_id@ == s);
                }
                if self.view_map().contains_key(s) {
                    let k = choose|k: int| 0 <= k < self.statuses@.len() && self.statuses@[k].notification_id@ == s;
                    assert(old(self).statuses@[k].notification_id@ == s);
                }
                if s == key {
                    assert(self.statuses@[i as int].notification_id@ == s);
                }
            }
            assert forall|s: Seq<char>| #[trigger] self.view_map().contains_key(s) implies self.view_map()[s] == m0.insert(key, st0)[s] by {
                let k = choose|k: int| 0 <= k < self.statuses@.len() && self.statuses@[k].notification_id@ == s;
                self.lemma_index_of(k);
                if s != key {
                    assert(k != i);
                    old(self).lemma_index_of(k);
                }
            }
            assert(self.view_map() =~= m0.insert(key, st0));
        }
    }

    /// Store a status under its notification, replacing any status held for it.
    pub fn insert(&mut self, st: NotificationDeliveryStatus)
        requires
            old(self).wf(),
        ensures
            final(self).wf(),
            final(self).view_map() == old(self).view_map().insert(st.notification_id@, st),
    {
        let ghost m0 = old(self).view_map();
        let ghost key = st.notification_id@;
        let ghost st0 = st;
        match self.find(st.notification_id.as_str()) {
            Some(i) => {
                self.replace_at(i, st);
            },
            None => {
                self.statuses.push(st);
                proof {
                    let n = old(self).statuses@.len() as int;
                    assert forall|a: int, b: int| 0 <= a < b < self.statuses@.len() implies #[trigger] self.statuses@[a].notification_id@
                        != #[trigger] self.statuses@[b].notification_id@ by {
                        if b < n {
                            assert(old(self).statuses@[a].notification_id@ != old(self).statuses@[b].notification_id@);
                        }
                    }
                    assert forall|s: Seq<char>| #[trigger] self.view_map().contains_key(s) == m0.insert(key, st0).contains_key(s) by {
                        if m0.contains_key(s) {
                            let k = choose|k: int| 0 <= k < old(self).statuses@.len() && old(self).statuses@[k].notification_id@ == s;
                            assert(self.statuses@[k].notification_id@ == s);
                        }
                        if s == key {
                            assert(self.statuses@[n].notification_id@ == s);
                        }
                        if self.view_map().contains_key(s) && s != key {
                            let k = choose|k: int| 0 <= k < self.statuses@.len() && self.statuses@[k].notification_id@ == s;
                            assert(k < n);
                            assert(old(self).statuses@[k].notification_id@ == s);
                        }
                    }
                    assert forall|s: Seq<char>| #[trigger] self.view_map().contains_key(s) implies self.view_map()[s] == m0.insert(key, st0)[s] by {
                        let k = choose|k: int| 0 <= k < self.statuses@.len() && self.statuses@[k].notification_id@ == s;
                        self.lemma_index_of(k);
                        if s != key {
                            assert(k < n);
                            assert(old(self).statuses@[k] == self.statuses@[k]);
                            old(self).lemma_index_of(k);
                        }
                    }
                    assert(self.view_map() =~= m0.insert(key, st0));
                }
            },
        }
    }

    /// Record the result of delivery on a channel of kind `ty` for notification `id`;
    /// false when the notification is not tracked.
    pub fn record_result(&mut self, id: &str, ty: &str, result: &Result<(), NotificationSystemError>, now_nanos: i64) -> (found: bool)
        requires
            old(self).wf(),
        ensures
            final(self).wf(),
            found == old(self).view_map().contains_key(id@),
            !found ==> final(self).view_map() == old(self).view_map(),
            found ==> final(self).view_map().dom() == old(self).view_map().dom()
                && (forall|k: Seq<char>| k != id@ ==> #[trigger] final(self).view_map().get(k) == old(self).view_map().get(k))
                && status_updated(old(self).view_map()[id@], final(self).view_map()[id@], ty@, *result, now_nanos),
    {
        match self.find(id) {
            Some(i) => {
                proof { self.lemma_index_of(i as int); }
                let st = self.statuses.remove(i);
                let updated = apply_result(st, ty, result, now_nanos);
                let ghost placeholder = updated;
                self.statuses.insert(i, updated);
                proof {
                    assert(self.statuses@ =~= old(self).statuses@.update(i as int, placeholder));
                }
                let ghost before = old(self).view_map();
                proof {
                    let o = old(self).statuses@;
                    let s = self.statuses@;
                    assert forall|a: int, c: int| 0 <= a < c < s.len() implies #[trigger] s[a].notification_id@
                        != #[trigger] s[c].notification_id@ by {
                        assert(o[a].notification_id@ != o[c].notification_id@);
                    }
                    assert forall|key: Seq<char>| #[trigger] self.view_map().contains_key(key) == before.contains_key(key) by {
                        if before.contains_key(key) {
                            let k = choose|k: int| 0 <= k < o.len() && o[k].notification_id@ == key;
                            assert(s[k].notification_id@ == key);
                        }
                        if self.view_map().contains_key(key) {
                            let k = choose|k: int| 0 <= k < s.len() && s[k].notification_id@ == key;
                            assert(o[k].notification_id@ == key);
                        }
                    }
                    assert(self.view_map().dom() =~= before.dom());
                    assert forall|key: Seq<char>| key != id@ implies #[trigger] self.view_map().get(key) == before.get(key) by {
                        if self.view_map().contains_key(key) {
                            let k = choose|k: int| 0 <= k < s.len() && s[k].notification_id@ == key;
                            self.lemma_index_of(k);
                            assert(k != i);
                            old(self).lemma_index_of(k);
                        }
                    }
                    self.lemma_index_of(i as int);
                }
                true
            },
            None => {
                proof {
                    if old(self).view_map().contains_key(id@) {
                        let k = choose|k: int| 0 <= k < self.statuses@.len() && self.statuses@[k].notification_id@ == id@;
                        assert(self.statuses@[k].notification_id@ != id@);
                    }
                }
                false
            },
        }
    }
}

/// The three channel kind names are distinct.
proof fn lemma_kind_names_differ()
    ensures
        "CLI"@ != "File"@,
        "CLI"@ != "API"@,
        "File"@ != "API"@,
{
    reveal_strlit("CLI");
    reveal_strlit("File");
    reveal_strlit("API");
    assert("CLI"@.len() == 3);
    assert("File"@.len() == 4);
    assert("API"@.len() == 3);
    assert("CLI"@[0] != "API"@[0]);
}

/// Delivery counters of one channel kind. Times are nanoseconds.
#[derive(Debug, Clone, PartialEq, Eq)]
pub struct ChannelPerformanceMetrics {
    pub channel_type: String,
    pub total_deliveries: u64,
    pub successful_deliveries: u64,
    pub failed_deliveries: u64,
    pub average_delivery_time_nanos: u64,
    pub last_delivery_nanos: Option<i64>,
}

/// The counters of a channel after one more delivery at `now_nanos`.
pub open spec fn channel_after(m: ChannelPerformanceMetrics, delivery_time: u64, success: bool, now_nanos: i64) -> ChannelPerformanceMetrics {
    let n = m.total_deliveries + 1;
    ChannelPerformanceMetrics {
        total_deliveries: n as u64,
        successful_deliveries: if success { (m.successful_deliveries + 1) as u64 } else { m.successful_deliveries },
        failed_deliveries: if success { m.failed_deliveries } else { (m.failed_deliveries + 1) as u64 },
        average_delivery_time_nanos: ((m.average_delivery_time_nanos * m.total_deliveries + delivery_time) / n) as u64,
        last_delivery_nanos: Some(now_nanos),
        ..m
    }
}

/// Room to count one more delivery of `DELIVERY_TIME_NANOS` in a channel's counters.
pub open spec fn channel_has_room(m: ChannelPerformanceMetrics) -> bool {
    &&& m.total_deliveries < u64::MAX
    &&& m.successful_deliveries < u64::MAX
    &&& m.failed_deliveries < u64::MAX
    &&& m.average_delivery_time_nanos * m.total_deliveries + DELIVERY_TIME_NANOS <= u64::MAX
}

/// Room to count one more delivery of `DELIVERY_TIME_NANOS` in the global timing.
pub open spec fn timing_has_room(m: DeliveryTiming) -> bool {
    &&& m.total_deliveries < u64::MAX
    &&& m.successful_deliveries < u64::MAX
    &&& m.failed_deliveries < u64::MAX
    &&& m.average_delivery_time_nanos * m.total_deliveries + DELIVERY_TIME_NANOS <= u64::MAX
}

impl ChannelPerformanceMetrics {
    /// No deliveries yet on the channel kind.
    pub fn new(channel_type: String) -> (m: ChannelPerformanceMetrics)
        ensures
            m == (ChannelPerformanceMetrics {
                channel_type,
                total_deliveries: 0,
                successful_deliveries: 0,
                failed_deliveries: 0,
                average_delivery_time_nanos: 0,
                last_delivery_nanos: None,
            }),
    {
        ChannelPerformanceMetrics {
            channel_type,
            total_deliveries: 0,
            successful_deliveries: 0,
            failed_deliveries: 0,
            average_delivery_time_nanos: 0,
            last_delivery_nanos: None,
        }
    }

    /// Count one delivery of the given duration at `now_nanos`.
    pub fn record(&mut self, delivery_time_nanos: u64, success: bool, now_nanos: i64)
        requires
            old(self).total_deliveries < u64::MAX,
            old(self).successful_deliveries < u64::MAX,
            old(self).failed_deliveries < u64::MAX,
            old(self).average_delivery_time_nanos * old(self).total_deliveries + delivery_time_nanos <= u64::MAX,
        ensures
            *final(self) == channel_after(*old(self), delivery_time_nanos, success, now_nanos),
    {
        let previous = self.total_deliveries;
        self.total_deliveries = previous + 1;
        if success {
            self.successful_deliveries = self.successful_deliveries + 1;
        } else {
            self.failed_deliveries = self.failed_deliveries + 1;
        }
        let total_time = self.average_delivery_time_nanos * previous + delivery_time_nanos;
        self.average_delivery_time_nanos = total_time / self.total_deliveries;
        self.last_delivery_nanos = Some(now_nanos);
    }

    /// A copy of the counters.
    pub fn duplicate(&self) -> (r: ChannelPerformanceMetrics)
        ensures
            r == *self,
    {
        ChannelPerformanceMetrics { channel_type: self.channel_type.clone(), ..*self }
    }
}

/// Notification delivery tracking: the status of each tracked notification, delivery
/// counters overall and per channel kind, and the audit trail.
#[derive(Debug)]
pub struct NotificationDeliveryVerifier {
    config: DeliveryVerificationConfig,
    statuses: DeliveryStatusTable,
    cli_metrics: ChannelPerformanceMetrics,
    file_metrics: ChannelPerformanceMetrics,
    api_metrics: ChannelPerformanceMetrics,
    performance: DeliveryTiming,
    audit_trail: Vec<AuditTrailEntry>,
    running: bool,
}

impl NotificationDeliveryVerifier {
    pub closed spec fn wf(&self) -> bool {
        &&& self.statuses.wf()
        &&& self.cli_metrics.channel_type@ == "CLI"@
        &&& self.file_metrics.channel_type@ == "File"@
        &&& self.api_metrics.channel_type@ == "API"@
    }

    pub closed spec fn settings(&self) -> DeliveryVerificationConfig {
        self.config
    }

    pub closed spec fn statuses(&self) -> Map<Seq<char>, NotificationDeliveryStatus> {
        self.statuses.view_map()
    }

    pub closed spec fn timing(&self) -> DeliveryTiming {
        self.performance
    }

    pub closed spec fn audit(&self) -> Seq<AuditTrailEntry> {
        self.audit_trail@
    }

    pub closed spec fn is_running(&self) -> bool {
        self.running
    }

    /// The counters of a channel kind: `CLI`, `File` or `API`.
    pub closed spec fn channel_metrics(&self, ty: Seq<char>) -> Option<ChannelPerformanceMetrics> {
        if ty == "CLI"@ {
            Some(self.cli_metrics)
        } else if ty == "File"@ {
            Some(self.file_metrics)
        } else if ty == "API"@ {
            Some(self.api_metrics)
        } else {
            None
        }
    }

    /// Nothing tracked, no deliveries counted, an empty audit trail, stopped.
    pub fn new(config: DeliveryVerificationConfig) -> (v: NotificationDeliveryVerifier)
        ensures
            v.wf(),
            v.settings() == config,
            v.statuses() == Map::<Seq<char>, NotificationDeliveryStatus>::empty(),
            v.timing() == DeliveryTiming::new_spec(),
            v.audit() == Seq::<AuditTrailEntry>::empty(),
            !v.is_running(),
            forall|ty: Seq<char>| #[trigger] v.channel_metrics(ty) matches Some(m) ==> m.total_deliveries == 0
                && m.last_delivery_nanos is None,
    {
        NotificationDeliveryVerifier {
            config,
            statuses: DeliveryStatusTable::new(),
            cli_metrics: ChannelPerformanceMetrics::new("CLI".to_owned()),
            file_metrics: ChannelPerformanceMetrics::new("File".to_owned()),
            api_metrics: ChannelPerformanceMetrics::new("API".to_owned()),
            performance: DeliveryTiming::new(),
            audit_trail: Vec::new(),
            running: false,
        }
    }

    /// Mark the system running. Gives which background tasks to start, the audit
    /// cleanup and the performance monitoring, each only when the system was stopped
    /// and the feature is enabled.
    pub fn start(&mut self) -> (tasks: (bool, bool))
        ensures
            final(self).is_running(),
            tasks == (
                !old(self).is_running() && old(self).settings().enable_audit_trails,
                !old(self).is_running() && old(self).settings().enable_performance_monitoring,
            ),
            final(self).settings() == old(self).settings(),
            final(self).statuses() == old(self).statuses(),
            final(self).audit() == old(self).audit(),
            final(self).timing() == old(self).timing(),
            final(self).wf() == old(self).wf(),
    {
        if self.running {
            return (false, false);
        }
        self.running = true;
        (self.config.enable_audit_trails, self.config.enable_performance_monitoring)
    }

    /// Whether the system is running.
    pub fn running(&self) -> (r: bool)
        ensures
            r == self.is_running(),
    {
        self.running
    }

    /// Mark the system stopped; true when it was running, that is when its background
    /// tasks are to be cancelled.
    pub fn stop(&mut self) -> (was_running: bool)
        ensures
            !final(self).is_running(),
            was_running == old(self).is_running(),
            final(self).settings() == old(self).settings(),
            final(self).statuses() == old(self).statuses(),
            final(self).audit() == old(self).audit(),
            final(self).timing() == old(self).timing(),
            final(self).wf() == old(self).wf(),
    {
        let was = self.running;
        self.running = false;
        was
    }

    /// Start tracking a notification at `now_nanos`: one pending attempt per channel,
    /// replacing any earlier tracking of it, and an audit entry when audit trails are
    /// kept. Nothing happens when tracking is disabled.
    pub fn track_delivery_attempt_at(&mut self, notification: &Notification, now_nanos: i64) -> (r: Result<(), DeliveryVerificationError>)
        requires
            old(self).wf(),
        ensures
            r is Ok,
            final(self).wf(),
            final(self).settings() == old(self).settings(),
            final(self).timing() == old(self).timing(),
            !old(self).settings().enable_delivery_tracking ==> final(self).statuses() == old(self).statuses()
                && final(self).audit() == old(self).audit(),
            old(self).settings().enable_delivery_tracking ==> final(self).statuses().contains_key(notification.id@)
                && final(self).statuses() == old(self).statuses().insert(
                notification.id@,
                final(self).statuses()[notification.id@],
            ) && fresh_status(final(self).statuses()[notification.id@], *notification, now_nanos),
            old(self).settings().enable_delivery_tracking && old(self).settings().enable_audit_trails ==> final(self).audit()
                == old(self).audit().push(final(self).audit().last()) && audit_entry_is(
                final(self).audit().last(),
                notification.id@,
                "delivery_attempted"@,
                now_nanos,
                None,
                true,
                None,
            ),
            old(self).settings().enable_delivery_tracking && !old(self).settings().enable_audit_trails ==> final(self).audit()
                == old(self).audit(),
    {
        if !self.config.enable_delivery_tracking {
            return Ok(());
        }
        let mut attempts: Vec<DeliveryAttempt> = Vec::new();
        let mut k: usize = 0;
        while k < notification.channels.len()
            invariant
                k <= notification.channels@.len(),
                attempts@.len() == k,
                forall|j: int| 0 <= j < k ==> {
                    let a = #[trigger] attempts@[j];
                    &&& a.notification_id == notification.id
                    &&& a.channel_type@ == channel_type_of(notification.channels@[j])
                    &&& a.channel_details@ == channel_details_of(notification.channels@[j])
                    &&& a.status matches DeliveryStatus::Pending { started_at_nanos } && started_at_nanos == now_nanos
                    &&& a.started_at_nanos == now_nanos
                },
            decreases notification.channels.len() - k,
        {
            let a = DeliveryAttempt::new_at(new_uuid_v4(), notification.id.clone(), &notification.channels[k], now_nanos);
            attempts.push(a);
            k = k + 1;
        }
        let st = NotificationDeliveryStatus {
            notification_id: notification.id.clone(),
            title: notification.title.clone(),
            notification_type: notification.notification_type,
            attempts,
            overall_status: OverallDeliveryStatus::AllPending,
            created_at_nanos: now_nanos,
            last_updated_nanos: now_nanos,
        };
        self.statuses.insert(st);
        if self.config.enable_audit_trails {
            self.add_audit_entry(notification.id.clone(), "delivery_attempted".to_owned(), None, true, None, now_nanos);
        }
        Ok(())
    }

    /// Record the result of delivering notification `notification_id` on `channel` at
    /// `now_nanos`: the notification's first attempt on that channel kind records it and
    /// the overall status is recomputed; with performance monitoring the delivery, of a
    /// fixed 50 milliseconds, is counted overall and for the channel kind; with audit
    /// trails an entry is kept. Nothing happens when tracking is disabled.
    pub fn update_delivery_status_at(
        &mut self,
        notification_id: &str,
        channel: &NotificationChannel,
        result: Result<(), NotificationSystemError>,
        now_nanos: i64,
    ) -> (r: Result<(), DeliveryVerificationError>)
        requires
            old(self).wf(),
            old(self).settings().enable_delivery_tracking && old(self).settings().enable_performance_monitoring
                ==> timing_has_room(old(self).timing()) && channel_has_room(
                old(self).channel_metrics(channel_type_of(*channel))->0,
            ),
        ensures
            r is Ok,
            final(self).wf(),
            final(self).settings() == old(self).settings(),
            !old(self).settings().enable_delivery_tracking ==> final(self).statuses() == old(self).statuses()
                && final(self).audit() == old(self).audit() && final(self).timing() == old(self).timing(),
            old(self).settings().enable_delivery_tracking ==> ({
                let ty = channel_type_of(*channel);
                let ok = result is Ok;
                &&& (old(self).statuses().contains_key(notification_id@) ==> final(self).statuses().dom()
                    == old(self).statuses().dom() && (forall|k: Seq<char>| k != notification_id@
                    ==> #[trigger] final(self).statuses().get(k) == old(self).statuses().get(k)) && status_updated(
                    old(self).statuses()[notification_id@],
                    final(self).statuses()[notification_id@],
                    ty,
                    result,
                    now_nanos,
                ))
                &&& (!old(self).statuses().contains_key(notification_id@) ==> final(self).statuses() == old(self).statuses())
                &&& (old(self).settings().enable_performance_monitoring ==> final(self).timing() == timing_after(
                    old(self).timing(),
                    DELIVERY_TIME_NANOS,
                    ok,
                ) && final(self).channel_metrics(ty) == Some(
                    channel_after(old(self).channel_metrics(ty)->0, DELIVERY_TIME_NANOS, ok, now_nanos),
                ))
                &&& (!old(self).settings().enable_performance_monitoring ==> final(self).timing() == old(self).timing())
                &&& (old(self).settings().enable_audit_trails ==> final(self).audit() == old(self).audit().push(
                    final(self).audit().last(),
                ) && audit_entry_is(
                    final(self).audit().last(),
                    notification_id@,
                    if ok { "delivery_completed"@ } else { "delivery_failed"@ },
                    now_nanos,
                    Some(ty),
                    ok,
                    match result {
                        Ok(_) => None,
                        Err(e) => Some(system_error_text(e)),
                    },
                ))
                &&& (!old(self).settings().enable_audit_trails ==> final(self).audit() == old(self).audit())
            }),
    {
        if !self.config.enable_delivery_tracking {
            return Ok(());
        }
        proof { lemma_kind_names_differ(); }
        let channel_type = channel_type_name(channel);
        let _ = self.statuses.record_result(notification_id, channel_type.as_str(), &result, now_nanos);
        let ok = result.is_ok();
        if self.config.enable_performance_monitoring {
            self.performance.record(DELIVERY_TIME_NANOS, ok);
            match channel {
                NotificationChannel::CLI => self.cli_metrics.record(DELIVERY_TIME_NANOS, ok, now_nanos),
                NotificationChannel::File { .. } => self.file_metrics.record(DELIVERY_TIME_NANOS, ok, now_nanos),
                NotificationChannel::API { .. } => self.api_metrics.record(DELIVERY_TIME_NANOS, ok, now_nanos),
            }
        }
        if self.config.enable_audit_trails {
            let event_type = if ok { "delivery_completed".to_owned() } else { "delivery_failed".to_owned() };
            let error_message = match &result {
                Ok(_) => None,
                Err(e) => Some(e.to_string()),
            };
            self.add_audit_entry(notification_id.to_owned(), event_type, Some(channel_type), ok, error_message, now_nanos);
        }
        Ok(())
    }

    /// The configuration.
    pub fn config(&self) -> (c: &DeliveryVerificationConfig)
        ensures
            *c == self.settings(),
    {
        &self.config
    }

    /// The delivery status of a tracked notification.
    pub fn get_delivery_status(&self, notification_id: &str) -> (r: Result<&NotificationDeliveryStatus, DeliveryVerificationError>)
        requires
            self.wf(),
        ensures
            match r {
                Ok(st) => self.statuses().contains_key(notification_id@) && *st == self.statuses()[notification_id@],
                Err(e) => !self.statuses().contains_key(notification_id@)
                    && (e matches DeliveryVerificationError::DeliveryStatusNotFound { notification_id: n }
                    && n@ == notification_id@),
            },
    {
        match self.statuses.get(notification_id) {
            Some(st) => Ok(st),
            None => Err(DeliveryVerificationError::DeliveryStatusNotFound { notification_id: notification_id.to_owned() }),
        }
    }

    /// Delivery counters over all channels.
    pub fn get_performance_metrics(&self) -> (r: Result<DeliveryTiming, DeliveryVerificationError>)
        ensures
            r == Ok::<DeliveryTiming, DeliveryVerificationError>(self.timing()),
    {
        Ok(self.performance)
    }

    /// Delivery counters of a channel kind: `CLI`, `File` or `API`.
    pub fn get_channel_performance_metrics(&self, channel_type: &str) -> (r: Result<ChannelPerformanceMetrics, DeliveryVerificationError>)
        ensures
            match self.channel_metrics(channel_type@) {
                Some(m) => r == Ok::<ChannelPerformanceMetrics, DeliveryVerificationError>(m),
                None => r matches Err(DeliveryVerificationError::ChannelVerifierNotFound { channel }) && channel@ == channel_type@,
            },
    {
        if crate::text::str_equal(channel_type, "CLI") {
            Ok(self.cli_metrics.duplicate())
        } else if crate::text::str_equal(channel_type, "File") {
            Ok(self.file_metrics.duplicate())
        } else if crate::text::str_equal(channel_type, "API") {
            Ok(self.api_metrics.duplicate())
        } else {
            Err(DeliveryVerificationError::ChannelVerifierNotFound { channel: channel_type.to_owned() })
        }
    }

    /// The audit entries of a notification, oldest first.
    pub fn get_audit_trail(&self, notification_id: &str) -> (r: Result<Vec<AuditTrailEntry>, DeliveryVerificationError>)
        ensures
            r matches Ok(v) && v@ == self.audit().filter(|e: AuditTrailEntry| e.notification_id@ == notification_id@),
    {
        let ghost pred = |e: AuditTrailEntry| e.notification_id@ == notification_id@;
        let mut v: Vec<AuditTrailEntry> = Vec::new();
        let mut i: usize = 0;
        while i < self.audit_trail.len()
            invariant
                i <= self.audit_trail@.len(),
                pred == (|e: AuditTrailEntry| e.notification_id@ == notification_id@),
                v@ == self.audit_trail@.take(i as int).filter(pred),
            decreases self.audit_trail.len() - i,
        {
            proof { self.audit_trail@.take(i as int).lemma_filter_push(self.audit_trail@[i as int], pred); }
            assert(self.audit_trail@.take(i + 1) =~= self.audit_trail@.take(i as int).push(self.audit_trail@[i as int]));
            if crate::text::str_equal(self.audit_trail[i].notification_id.as_str(), notification_id) {
                v.push(self.audit_trail[i].duplicate());
            }
            i = i + 1;
        }
        assert(self.audit_trail@.take(self.audit_trail@.len() as int) =~= self.audit_trail@);
        Ok(v)
    }

    /// The audit entries stamped between `start_nanos` and `end_nanos` inclusive,
    /// oldest first.
    pub fn get_audit_trail_by_time_range(&self, start_nanos: i64, end_nanos: i64) -> (r: Result<Vec<AuditTrailEntry>, DeliveryVerificationError>)
        ensures
            r matches Ok(v) && v@ == self.audit().filter(
                |e: AuditTrailEntry| start_nanos <= e.event_timestamp_nanos && e.event_timestamp_nanos <= end_nanos,
            ),
    {
        let ghost pred = |e: AuditTrailEntry| start_nanos <= e.event_timestamp_nanos && e.event_timestamp_nanos <= end_nanos;
        let mut v: Vec<AuditTrailEntry> = Vec::new();
        let mut i: usize = 0;
        while i < self.audit_trail.len()
            invariant
                i <= self.audit_trail@.len(),
                pred == (|e: AuditTrailEntry| start_nanos <= e.event_timestamp_nanos && e.event_timestamp_nanos <= end_nanos),
                v@ == self.audit_trail@.take(i as int).filter(pred),
            decreases self.audit_trail.len() - i,
        {
            proof { self.audit_trail@.take(i as int).lemma_filter_push(self.audit_trail@[i as int], pred); }
            assert(self.audit_trail@.take(i + 1) =~= self.audit_trail@.take(i as int).push(self.audit_trail@[i as int]));
            let t = self.audit_trail[i].event_timestamp_nanos;
            if start_nanos <= t && t <= end_nanos {
                v.push(self.audit_trail[i].duplicate());
            }
            i = i + 1;
        }
        assert(self.audit_trail@.take(self.audit_trail@.len() as int) =~= self.audit_trail@);
        Ok(v)
    }

    /// Keep only the audit entries stamped after `cutoff_nanos`, in order.
    pub fn retain_audit_entries_after(&mut self, cutoff_nanos: i64)
        ensures
            final(self).audit() == old(self).audit().filter(|e: AuditTrailEntry| e.event_timestamp_nanos > cutoff_nanos),
            final(self).statuses() == old(self).statuses(),
            final(self).timing() == old(self).timing(),
            final(self).settings() == old(self).settings(),
            final(self).wf() == old(self).wf(),
    {
        let ghost pred = |e: AuditTrailEntry| e.event_timestamp_nanos > cutoff_nanos;
        let mut kept: Vec<AuditTrailEntry> = Vec::new();
        let mut i: usize = 0;
        while i < self.audit_trail.len()
            invariant
                i <= self.audit_trail@.len(),
                pred == (|e: AuditTrailEntry| e.event_timestamp_nanos > cutoff_nanos),
                kept@ == self.audit_trail@.take(i as int).filter(pred),
            decreases self.audit_trail.len() - i,
        {
            proof { self.audit_trail@.take(i as int).lemma_filter_push(self.audit_trail@[i as int], pred); }
            assert(self.audit_trail@.take(i + 1) =~= self.audit_trail@.take(i as int).push(self.audit_trail@[i as int]));
            if self.audit_trail[i].event_timestamp_nanos > cutoff_nanos {
                kept.push(self.audit_trail[i].duplicate());
            }
            i = i + 1;
        }
        assert(self.audit_trail@.take(self.audit_trail@.len() as int) =~= self.audit_trail@);
        self.audit_trail = kept;
    }

    /// Append an audit entry with a fresh identifier.
    fn add_audit_entry(
        &mut self,
        notification_id: String,
        event_type: String,
        channel_type: Option<String>,
        success: bool,
        error_message: Option<String>,
        now_nanos: i64,
    )
        ensures
            final(self).audit() == old(self).audit().push(final(self).audit().last()),
            final(self).audit().last().notification_id == notification_id,
            final(self).audit().last().event_type == event_type,
            final(self).audit().last().event_timestamp_nanos == now_nanos,
            final(self).audit().last().channel_type == channel_type,
            final(self).audit().last().success == success,
            final(self).audit().last().error_message == error_message,
            final(self).config == old(self).config,
            final(self).statuses == old(self).statuses,
            final(self).performance == old(self).performance,
            final(self).cli_metrics == old(self).cli_metrics,
            final(self).file_metrics == old(self).file_metrics,
            final(self).api_metrics == old(self).api_metrics,
            final(self).running == old(self).running,
    {
        let entry = AuditTrailEntry {
            entry_id: new_uuid_v4(),
            notification_id,
            event_type,
            event_timestamp_nanos: now_nanos,
            channel_type,
            success,
            error_message,
        };
        self.audit_trail.push(entry);
    }
}

/// An audit entry with these fields, whatever its identifier.
pub open spec fn audit_entry_is(
    e: AuditTrailEntry,
    notification_id: Seq<char>,
    event_type: Seq<char>,
    now_nanos: i64,
    channel_type: Option<Seq<char>>,
    success: bool,
    error_message: Option<Seq<char>>,
) -> bool {
    &&& e.notification_id@ == notification_id
    &&& e.event_type@ == event_type
    &&& e.event_timestamp_nanos == now_nanos
    &&& match (e.channel_type, channel_type) {
        (Some(a), Some(b)) => a@ == b,
        (None, None) => true,
        _ => false,
    }
    &&& e.success == success
    &&& match (e.error_message, error_message) {
        (Some(a), Some(b)) => a@ == b,
        (None, None) => true,
        _ => false,
    }
}

} // verus!



