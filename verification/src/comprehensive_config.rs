//! Notification, resource and caching settings of the proactive configuration, their
//! defaults and the ranges each field must lie in.

use vstd::prelude::*;
use std::collections::HashMap;
use crate::text::{append_decimal, char_fields, decimal, parse_unsigned, split_on_char, str_equal, string_views, trim, trimmed, unsigned_value};

verus! {

/// Research integration configuration.
#[derive(Debug, Clone)]
pub struct ResearchIntegrationConfig {
    /// Enable the language-model API integration
    pub enable_claude_integration: bool,
    /// Enable vector database integration
    pub enable_vector_integration: bool,
    /// Enable external API integrations
    pub enable_external_apis: bool,
    /// API rate limiting configuration
    pub api_rate_limits: HashMap<String, u32>,
    /// Integration timeouts
    pub integration_timeouts: HashMap<String, u64>,
}

impl Default for ResearchIntegrationConfig {
    fn default() -> (c: ResearchIntegrationConfig)
        ensures
            c.enable_claude_integration,
            c.enable_vector_integration,
            !c.enable_external_apis,
    {
        let mut api_rate_limits: HashMap<String, u32> = HashMap::new();
        api_rate_limits.insert("assistant".to_owned(), 50);
        api_rate_limits.insert("vector".to_owned(), 100);
        let mut integration_timeouts: HashMap<String, u64> = HashMap::new();
        integration_timeouts.insert("assistant".to_owned(), 30);
        integration_timeouts.insert("vector".to_owned(), 10);
        ResearchIntegrationConfig {
            enable_claude_integration: true,
            enable_vector_integration: true,
            enable_external_apis: false,
            api_rate_limits,
            integration_timeouts,
        }
    }
}

/// The range checks that failed, in field order, for a list of named conditions.
pub open spec fn failed_fields(checks: Seq<(Seq<char>, bool)>) -> Seq<Seq<char>>
    decreases checks.len(),
{
    if checks.len() == 0 {
        Seq::empty()
    } else {
        let rest = failed_fields(checks.drop_last());
        if checks.last().1 { rest } else { rest.push(checks.last().0) }
    }
}

/// Appends `field` to the failures when `ok` does not hold.
fn check_field(failures: &mut Vec<String>, field: &str, ok: bool)
    ensures
        string_views(final(failures)@) == if ok { string_views(old(failures)@) } else { string_views(old(failures)@).push(field@) },
{
    if !ok {
        failures.push(field.to_owned());
        assert(string_views(failures@) =~= string_views(old(failures)@).push(field@));
    }
}

/// Turns the collected failures into the validation result.
fn finish(failures: Vec<String>) -> (r: Result<(), Vec<String>>)
    ensures
        failures@.len() == 0 ==> r is Ok,
        failures@.len() > 0 ==> (r matches Err(v) && v == failures),
{
    if failures.len() == 0 { Ok(()) } else { Err(failures) }
}

/// Notification throttling configuration.
#[derive(Debug, Clone, Copy, PartialEq, Eq, Structural)]
pub struct NotificationThrottling {
    /// Minimum time between notifications (seconds), 1 to 86400
    pub min_interval_seconds: u64,
    /// Enable deduplication
    pub enable_deduplication: bool,
    /// Deduplication window (seconds), 60 to 3600
    pub deduplication_window_seconds: u64,
}

impl Default for NotificationThrottling {
    fn default() -> (t: NotificationThrottling)
        ensures
            t == (NotificationThrottling { min_interval_seconds: 300, enable_deduplication: true, deduplication_window_seconds: 900 }),
    {
        NotificationThrottling { min_interval_seconds: 300, enable_deduplication: true, deduplication_window_seconds: 900 }
    }
}

impl NotificationThrottling {
    /// The fields out of range, in field order.
    pub open spec fn invalid_fields(self) -> Seq<Seq<char>> {
        failed_fields(seq![
            ("min_interval_seconds"@, 1 <= self.min_interval_seconds <= 86400),
            ("deduplication_window_seconds"@, 60 <= self.deduplication_window_seconds <= 3600),
        ])
    }

    /// Check every field against its range; the error lists the fields out of range.
    pub fn validate(&self) -> (r: Result<(), Vec<String>>)
        ensures
            r is Ok <==> self.invalid_fields().len() == 0,
            r matches Err(v) ==> string_views(v@) == self.invalid_fields(),
    {
        let mut failures: Vec<String> = Vec::new();
        check_field(&mut failures, "min_interval_seconds", 1 <= self.min_interval_seconds && self.min_interval_seconds <= 86400);
        check_field(&mut failures, "deduplication_window_seconds", 60 <= self.deduplication_window_seconds && self.deduplication_window_seconds <= 3600);
        proof { reveal_with_fuel(failed_fields, 3); }
        assert(string_views(failures@) =~= self.invalid_fields());
        finish(failures)
    }
}

/// Notification rate limiting.
#[derive(Debug, Clone, Copy, PartialEq, Eq, Structural)]
pub struct NotificationRateLimiting {
    /// Maximum notifications per hour, 1 to 1000
    pub max_per_hour: u32,
    /// Maximum notifications per day, 1 to 10000
    pub max_per_day: u32,
    /// Enable burst protection
    pub enable_burst_protection: bool,
    /// Burst threshold, 1 to 100
    pub burst_threshold: u32,
}

impl Default for NotificationRateLimiting {
    fn default() -> (r: NotificationRateLimiting)
        ensures
            r == (NotificationRateLimiting { max_per_hour: 10, max_per_day: 50, enable_burst_protection: true, burst_threshold: 5 }),
    {
        NotificationRateLimiting { max_per_hour: 10, max_per_day: 50, enable_burst_protection: true, burst_threshold: 5 }
    }
}

impl NotificationRateLimiting {
    /// The fields out of range, in field order.
    pub open spec fn invalid_fields(self) -> Seq<Seq<char>> {
        failed_fields(seq![
            ("max_per_hour"@, 1 <= self.max_per_hour <= 1000),
            ("max_per_day"@, 1 <= self.max_per_day <= 10000),
            ("burst_threshold"@, 1 <= self.burst_threshold <= 100),
        ])
    }

    /// Check every field against its range; the error lists the fields out of range.
    pub fn validate(&self) -> (r: Result<(), Vec<String>>)
        ensures
            r is Ok <==> self.invalid_fields().len() == 0,
            r matches Err(v) ==> string_views(v@) == self.invalid_fields(),
    {
        let mut failures: Vec<String> = Vec::new();
        check_field(&mut failures, "max_per_hour", 1 <= self.max_per_hour && self.max_per_hour <= 1000);
        check_field(&mut failures, "max_per_day", 1 <= self.max_per_day && self.max_per_day <= 10000);
        check_field(&mut failures, "burst_threshold", 1 <= self.burst_threshold && self.burst_threshold <= 100);
        proof { reveal_with_fuel(failed_fields, 4); }
        assert(string_views(failures@) =~= self.invalid_fields());
        finish(failures)
    }
}

/// Notification delivery rule.
#[derive(Debug, Clone, PartialEq, Eq)]
pub struct NotificationRule {
    /// Rule name, 1 to 100 characters
    pub name: String,
    /// Condition for triggering notification
    pub condition: String,
    /// Channels to use for this rule
    pub channels: Vec<String>,
    /// Priority level, 1 to 10
    pub priority: u8,
    /// Whether rule is enabled
    pub enabled: bool,
    /// Throttling settings
    pub throttling: Option<NotificationThrottling>,
}

impl Default for NotificationRule {
    fn default() -> (r: NotificationRule)
        ensures
            r.name@ == "Default Rule"@,
            r.condition@ == "gap_detected"@,
            string_views(r.channels@) == seq!["desktop"@],
            r.priority == 5,
            r.enabled,
            r.throttling == Some(NotificationThrottling { min_interval_seconds: 300, enable_deduplication: true, deduplication_window_seconds: 900 }),
    {
        let channels = vec!["desktop".to_owned()];
        assert(string_views(channels@) =~= seq!["desktop"@]);
        NotificationRule {
            name: "Default Rule".to_owned(),
            condition: "gap_detected".to_owned(),
            channels,
            priority: 5,
            enabled: true,
            throttling: Some(NotificationThrottling::default()),
        }
    }
}

impl NotificationRule {
    /// The fields out of range, in field order.
    pub open spec fn invalid_fields(self) -> Seq<Seq<char>> {
        failed_fields(seq![
            ("name"@, 1 <= self.name@.len() <= 100),
            ("priority"@, 1 <= self.priority <= 10),
        ])
    }

    /// Check every field against its range; the error lists the fields out of range.
    pub fn validate(&self) -> (r: Result<(), Vec<String>>)
        ensures
            r is Ok <==> self.invalid_fields().len() == 0,
            r matches Err(v) ==> string_views(v@) == self.invalid_fields(),
    {
        let name_len = crate::text::chars_of(self.name.as_str()).len();
        let mut failures: Vec<String> = Vec::new();
        check_field(&mut failures, "name", 1 <= name_len && name_len <= 100);
        check_field(&mut failures, "priority", 1 <= self.priority && self.priority <= 10);
        proof { reveal_with_fuel(failed_fields, 3); }
        assert(string_views(failures@) =~= self.invalid_fields());
        finish(failures)
    }
}

/// Notification template.
#[derive(Debug, Clone, PartialEq, Eq)]
pub struct NotificationTemplate {
    /// Template subject
    pub subject: String,
    /// Template body
    pub body: String,
    /// Template format (text, html, markdown)
    pub format: String,
    /// Template variables
    pub variables: Vec<String>,
}

/// Resource limits configuration.
#[derive(Debug, Clone, Copy, PartialEq, Eq, Structural)]
pub struct ResourceLimitsConfig {
    /// Maximum memory usage in MB, 100 to 32768
    pub max_memory_mb: u64,
    /// Maximum CPU usage percentage, 10 to 100
    pub max_cpu_percent: u8,
    /// Maximum disk usage in MB, 100 to 102400
    pub max_disk_mb: u64,
    /// Maximum network bandwidth in Mbps, 1 to 1000
    pub max_network_mbps: u32,
}

impl Default for ResourceLimitsConfig {
    fn default() -> (r: ResourceLimitsConfig)
        ensures
            r == (ResourceLimitsConfig { max_memory_mb: 2048, max_cpu_percent: 80, max_disk_mb: 10240, max_network_mbps: 100 }),
    {
        ResourceLimitsConfig { max_memory_mb: 2048, max_cpu_percent: 80, max_disk_mb: 10240, max_network_mbps: 100 }
    }
}

impl ResourceLimitsConfig {
    /// The fields out of range, in field order.
    pub open spec fn invalid_fields(self) -> Seq<Seq<char>> {
        failed_fields(seq![
            ("max_memory_mb"@, 100 <= self.max_memory_mb <= 32768),
            ("max_cpu_percent"@, 10 <= self.max_cpu_percent <= 100),
            ("max_disk_mb"@, 100 <= self.max_disk_mb <= 102400),
            ("max_network_mbps"@, 1 <= self.max_network_mbps <= 1000),
        ])
    }

    /// Check every field against its range; the error lists the fields out of range.
    pub fn validate(&self) -> (r: Result<(), Vec<String>>)
        ensures
            r is Ok <==> self.invalid_fields().len() == 0,
            r matches Err(v) ==> string_views(v@) == self.invalid_fields(),
    {
        let mut failures: Vec<String> = Vec::new();
        check_field(&mut failures, "max_memory_mb", 100 <= self.max_memory_mb && self.max_memory_mb <= 32768);
        check_field(&mut failures, "max_cpu_percent", 10 <= self.max_cpu_percent && self.max_cpu_percent <= 100);
        check_field(&mut failures, "max_disk_mb", 100 <= self.max_disk_mb && self.max_disk_mb <= 102400);
        check_field(&mut failures, "max_network_mbps", 1 <= self.max_network_mbps && self.max_network_mbps <= 1000);
        proof { reveal_with_fuel(failed_fields, 5); }
        assert(string_views(failures@) =~= self.invalid_fields());
        finish(failures)
    }
}

/// Caching configuration.
#[derive(Debug, Clone, PartialEq, Eq)]
pub struct CachingConfig {
    /// Enable caching
    pub enabled: bool,
    /// Cache size limit in MB, 10 to 10240
    pub size_limit_mb: u64,
    /// Cache TTL in seconds, 60 to 86400
    pub ttl_seconds: u64,
    /// Cache eviction policy
    pub eviction_policy: String,
    /// Cache compression
    pub enable_compression: bool,
}

impl Default for CachingConfig {
    fn default() -> (c: CachingConfig)
        ensures
            c.enabled,
            c.size_limit_mb == 512,
            c.ttl_seconds == 3600,
            c.eviction_policy@ == "lru"@,
            c.enable_compression,
    {
        CachingConfig { enabled: true, size_limit_mb: 512, ttl_seconds: 3600, eviction_policy: "lru".to_owned(), enable_compression: true }
    }
}

impl CachingConfig {
    /// The fields out of range, in field order.
    pub open spec fn invalid_fields(self) -> Seq<Seq<char>> {
        failed_fields(seq![
            ("size_limit_mb"@, 10 <= self.size_limit_mb <= 10240),
            ("ttl_seconds"@, 60 <= self.ttl_seconds <= 86400),
        ])
    }

    /// Check every field against its range; the error lists the fields out of range.
    pub fn validate(&self) -> (r: Result<(), Vec<String>>)
        ensures
            r is Ok <==> self.invalid_fields().len() == 0,
            r matches Err(v) ==> string_views(v@) == self.invalid_fields(),
    {
        let mut failures: Vec<String> = Vec::new();
        check_field(&mut failures, "size_limit_mb", 10 <= self.size_limit_mb && self.size_limit_mb <= 10240);
        check_field(&mut failures, "ttl_seconds", 60 <= self.ttl_seconds && self.ttl_seconds <= 86400);
        proof { reveal_with_fuel(failed_fields, 3); }
        assert(string_views(failures@) =~= self.invalid_fields());
        finish(failures)
    }
}

/// The defaults lie within their ranges.
pub proof fn lemma_defaults_valid()
    ensures
        (NotificationThrottling { min_interval_seconds: 300, enable_deduplication: true, deduplication_window_seconds: 900 }).invalid_fields().len() == 0,
        (NotificationRateLimiting { max_per_hour: 10, max_per_day: 50, enable_burst_protection: true, burst_threshold: 5 }).invalid_fields().len() == 0,
        (ResourceLimitsConfig { max_memory_mb: 2048, max_cpu_percent: 80, max_disk_mb: 10240, max_network_mbps: 100 }).invalid_fields().len() == 0,
{
    reveal_with_fuel(failed_fields, 5);
}


/// The memory a research task is expected to need, in MB.
pub const ESTIMATED_MEMORY_PER_TASK_MB: u64 = 100;

/// The conflict between the scan, research and resource settings, if any: frequent
/// scans with many concurrent tasks need at least 70% of the CPU, and the concurrent
/// tasks may use at most half the memory limit.
pub open spec fn settings_conflict(scan_intervals_seconds: u64, max_concurrent_tasks: u32, limits: ResourceLimitsConfig) -> Option<Seq<char>> {
    let needed = max_concurrent_tasks * ESTIMATED_MEMORY_PER_TASK_MB;
    if scan_intervals_seconds < 60 && max_concurrent_tasks > 5 && limits.max_cpu_percent < 70 {
        Some("High scan frequency and concurrency require higher CPU limits"@)
    } else if needed > limits.max_memory_mb / 2 {
        Some(
            "Concurrent tasks ("@ + decimal(max_concurrent_tasks as nat) + ") may exceed memory limits (estimated "@
                + decimal(needed as nat) + " MB needed, "@ + decimal(limits.max_memory_mb as nat) + " MB available)"@,
        )
    } else {
        None
    }
}

/// Check the scan, research and resource settings against each other.
pub fn check_conflicting_settings(scan_intervals_seconds: u64, max_concurrent_tasks: u32, limits: &ResourceLimitsConfig) -> (r: Result<(), String>)
    ensures
        match settings_conflict(scan_intervals_seconds, max_concurrent_tasks, *limits) {
            None => r is Ok,
            Some(m) => r matches Err(e) && e@ == m,
        },
{
    if scan_intervals_seconds < 60 && max_concurrent_tasks > 5 && limits.max_cpu_percent < 70 {
        return Err("High scan frequency and concurrency require higher CPU limits".to_owned());
    }
    let needed: u64 = max_concurrent_tasks as u64 * ESTIMATED_MEMORY_PER_TASK_MB;
    if needed > limits.max_memory_mb / 2 {
        let mut m = String::new();
        m.append("Concurrent tasks (");
        append_decimal(&mut m, max_concurrent_tasks as u64);
        m.append(") may exceed memory limits (estimated ");
        append_decimal(&mut m, needed);
        m.append(" MB needed, ");
        append_decimal(&mut m, limits.max_memory_mb);
        m.append(" MB available)");
        return Err(m);
    }
    Ok(())
}

/// The range checks on the gap analysis settings of the proactive configuration, in
/// field order. (The confidence threshold, a fraction, is checked by the caller.)
pub open spec fn gap_analysis_invalid_fields(
    scan_intervals_seconds: u64,
    file_pattern_count: usize,
    detection_rule_count: usize,
    max_files_per_scan: u64,
) -> Seq<Seq<char>> {
    failed_fields(seq![
        ("scan_intervals_seconds"@, 1 <= scan_intervals_seconds <= 86400),
        ("file_patterns"@, file_pattern_count >= 1),
        ("detection_rules"@, detection_rule_count >= 1),
        ("max_files_per_scan"@, 1 <= max_files_per_scan <= 100000),
    ])
}

/// Check the scan interval, the number of file patterns and detection rules, and the
/// number of files per scan of the gap analysis settings.
pub fn validate_gap_analysis_limits(
    scan_intervals_seconds: u64,
    file_pattern_count: usize,
    detection_rule_count: usize,
    max_files_per_scan: u64,
) -> (r: Result<(), Vec<String>>)
    ensures
        r is Ok <==> gap_analysis_invalid_fields(scan_intervals_seconds, file_pattern_count, detection_rule_count,
            max_files_per_scan).len() == 0,
        r matches Err(v) ==> string_views(v@) == gap_analysis_invalid_fields(scan_intervals_seconds,
            file_pattern_count, detection_rule_count, max_files_per_scan),
{
    let mut failures: Vec<String> = Vec::new();
    check_field(&mut failures, "scan_intervals_seconds", 1 <= scan_intervals_seconds && scan_intervals_seconds <= 86400);
    check_field(&mut failures, "file_patterns", file_pattern_count >= 1);
    check_field(&mut failures, "detection_rules", detection_rule_count >= 1);
    check_field(&mut failures, "max_files_per_scan", 1 <= max_files_per_scan && max_files_per_scan <= 100000);
    proof { reveal_with_fuel(failed_fields, 5); }
    assert(string_views(failures@) =~= gap_analysis_invalid_fields(scan_intervals_seconds, file_pattern_count,
        detection_rule_count, max_files_per_scan));
    finish(failures)
}

/// The range checks on a custom gap rule, in field order. (The confidence boost, a
/// fraction, is checked by the caller.)
pub open spec fn custom_gap_rule_invalid_fields(name: Seq<char>, pattern: Seq<char>, priority: u8) -> Seq<Seq<char>> {
    failed_fields(seq![
        ("name"@, 1 <= name.len() <= 100),
        ("pattern"@, pattern.len() >= 1),
        ("priority"@, 1 <= priority <= 10),
    ])
}

/// Check the name (1 to 100 characters), pattern (not empty) and priority (1 to 10) of a
/// custom gap rule.
pub fn validate_custom_gap_rule(name: &str, pattern: &str, priority: u8) -> (r: Result<(), Vec<String>>)
    ensures
        r is Ok <==> custom_gap_rule_invalid_fields(name@, pattern@, priority).len() == 0,
        r matches Err(v) ==> string_views(v@) == custom_gap_rule_invalid_fields(name@, pattern@, priority),
{
    let name_len = crate::text::chars_of(name).len();
    let pattern_len = crate::text::chars_of(pattern).len();
    let mut failures: Vec<String> = Vec::new();
    check_field(&mut failures, "name", 1 <= name_len && name_len <= 100);
    check_field(&mut failures, "pattern", pattern_len >= 1);
    check_field(&mut failures, "priority", 1 <= priority && priority <= 10);
    proof { reveal_with_fuel(failed_fields, 4); }
    assert(string_views(failures@) =~= custom_gap_rule_invalid_fields(name@, pattern@, priority));
    finish(failures)
}

/// The range checks on the background research settings, in field order.
pub open spec fn research_invalid_fields(
    max_concurrent_tasks: u32,
    rate_limit_requests_per_minute: u32,
    research_timeout_seconds: u64,
) -> Seq<Seq<char>> {
    failed_fields(seq![
        ("max_concurrent_tasks"@, 1 <= max_concurrent_tasks <= 20),
        ("rate_limit_requests_per_minute"@, 1 <= rate_limit_requests_per_minute <= 1000),
        ("research_timeout_seconds"@, 30 <= research_timeout_seconds <= 3600),
    ])
}

/// Check the concurrency, rate limit and timeout of the background research settings.
pub fn validate_research_limits(
    max_concurrent_tasks: u32,
    rate_limit_requests_per_minute: u32,
    research_timeout_seconds: u64,
) -> (r: Result<(), Vec<String>>)
    ensures
        r is Ok <==> research_invalid_fields(max_concurrent_tasks, rate_limit_requests_per_minute,
            research_timeout_seconds).len() == 0,
        r matches Err(v) ==> string_views(v@) == research_invalid_fields(max_concurrent_tasks,
            rate_limit_requests_per_minute, research_timeout_seconds),
{
    let mut failures: Vec<String> = Vec::new();
    check_field(&mut failures, "max_concurrent_tasks", 1 <= max_concurrent_tasks && max_concurrent_tasks <= 20);
    check_field(&mut failures, "rate_limit_requests_per_minute",
        1 <= rate_limit_requests_per_minute && rate_limit_requests_per_minute <= 1000);
    check_field(&mut failures, "research_timeout_seconds",
        30 <= research_timeout_seconds && research_timeout_seconds <= 3600);
    proof { reveal_with_fuel(failed_fields, 4); }
    assert(string_views(failures@) =~= research_invalid_fields(max_concurrent_tasks, rate_limit_requests_per_minute,
        research_timeout_seconds));
    finish(failures)
}

/// The range checks on the research quality settings, in field order. (The minimum
/// confidence, a fraction, is checked by the caller.)
pub open spec fn research_quality_invalid_fields(min_sources: u32, max_retry_attempts: u32) -> Seq<Seq<char>> {
    failed_fields(seq![
        ("min_sources"@, 1 <= min_sources <= 20),
        ("max_retry_attempts"@, 1 <= max_retry_attempts <= 5),
    ])
}

/// Check the number of sources and retries of the research quality settings.
pub fn validate_research_quality_limits(min_sources: u32, max_retry_attempts: u32) -> (r: Result<(), Vec<String>>)
    ensures
        r is Ok <==> research_quality_invalid_fields(min_sources, max_retry_attempts).len() == 0,
        r matches Err(v) ==> string_views(v@) == research_quality_invalid_fields(min_sources, max_retry_attempts),
{
    let mut failures: Vec<String> = Vec::new();
    check_field(&mut failures, "min_sources", 1 <= min_sources && min_sources <= 20);
    check_field(&mut failures, "max_retry_attempts", 1 <= max_retry_attempts && max_retry_attempts <= 5);
    proof { reveal_with_fuel(failed_fields, 3); }
    assert(string_views(failures@) =~= research_quality_invalid_fields(min_sources, max_retry_attempts));
    finish(failures)
}

/// The range checks on the notification settings' lists, in field order.
pub open spec fn notification_invalid_fields(channel_count: usize, delivery_rule_count: usize) -> Seq<Seq<char>> {
    failed_fields(seq![
        ("channels"@, channel_count >= 1),
        ("delivery_rules"@, delivery_rule_count >= 1),
    ])
}

/// Check that the notification settings name at least one channel and one delivery rule.
pub fn validate_notification_lists(channel_count: usize, delivery_rule_count: usize) -> (r: Result<(), Vec<String>>)
    ensures
        r is Ok <==> notification_invalid_fields(channel_count, delivery_rule_count).len() == 0,
        r matches Err(v) ==> string_views(v@) == notification_invalid_fields(channel_count, delivery_rule_count),
{
    let mut failures: Vec<String> = Vec::new();
    check_field(&mut failures, "channels", channel_count >= 1);
    check_field(&mut failures, "delivery_rules", delivery_rule_count >= 1);
    proof { reveal_with_fuel(failed_fields, 3); }
    assert(string_views(failures@) =~= notification_invalid_fields(channel_count, delivery_rule_count));
    finish(failures)
}

/// The range check on the optimization interval.
pub open spec fn optimization_invalid_fields(optimization_interval_seconds: u64) -> Seq<Seq<char>> {
    failed_fields(seq![("optimization_interval_seconds"@, 300 <= optimization_interval_seconds <= 86400)])
}

/// Check that optimization runs between every five minutes and once a day.
pub fn validate_optimization_interval(optimization_interval_seconds: u64) -> (r: Result<(), Vec<String>>)
    ensures
        r is Ok <==> optimization_invalid_fields(optimization_interval_seconds).len() == 0,
        r matches Err(v) ==> string_views(v@) == optimization_invalid_fields(optimization_interval_seconds),
{
    let mut failures: Vec<String> = Vec::new();
    check_field(&mut failures, "optimization_interval_seconds",
        300 <= optimization_interval_seconds && optimization_interval_seconds <= 86400);
    proof { reveal_with_fuel(failed_fields, 2); }
    assert(string_views(failures@) =~= optimization_invalid_fields(optimization_interval_seconds));
    finish(failures)
}

/// The range checks on the user preferences, in field order.
pub open spec fn user_preference_invalid_fields(
    research_domain_count: usize,
    notification_frequency_hours: u64,
    preferred_format_count: usize,
) -> Seq<Seq<char>> {
    failed_fields(seq![
        ("research_domains"@, research_domain_count >= 1),
        ("notification_frequency_hours"@, 1 <= notification_frequency_hours <= 168),
        ("preferred_formats"@, preferred_format_count >= 1),
    ])
}

/// Check that the user preferences name a research domain and an output format, and
/// notify between every hour and once a week.
pub fn validate_user_preference_limits(
    research_domain_count: usize,
    notification_frequency_hours: u64,
    preferred_format_count: usize,
) -> (r: Result<(), Vec<String>>)
    ensures
        r is Ok <==> user_preference_invalid_fields(research_domain_count, notification_frequency_hours,
            preferred_format_count).len() == 0,
        r matches Err(v) ==> string_views(v@) == user_preference_invalid_fields(research_domain_count,
            notification_frequency_hours, preferred_format_count),
{
    let mut failures: Vec<String> = Vec::new();
    check_field(&mut failures, "research_domains", research_domain_count >= 1);
    check_field(&mut failures, "notification_frequency_hours",
        1 <= notification_frequency_hours && notification_frequency_hours <= 168);
    check_field(&mut failures, "preferred_formats", preferred_format_count >= 1);
    proof { reveal_with_fuel(failed_fields, 4); }
    assert(string_views(failures@) =~= user_preference_invalid_fields(research_domain_count,
        notification_frequency_hours, preferred_format_count));
    finish(failures)
}

/// The range check on the workspace settings.
pub open spec fn workspace_invalid_fields(project_path_count: usize) -> Seq<Seq<char>> {
    failed_fields(seq![("project_paths"@, project_path_count >= 1)])
}

/// Check that the workspace settings name at least one project path.
pub fn validate_workspace_paths(project_path_count: usize) -> (r: Result<(), Vec<String>>)
    ensures
        r is Ok <==> workspace_invalid_fields(project_path_count).len() == 0,
        r matches Err(v) ==> string_views(v@) == workspace_invalid_fields(project_path_count),
{
    let mut failures: Vec<String> = Vec::new();
    check_field(&mut failures, "project_paths", project_path_count >= 1);
    proof { reveal_with_fuel(failed_fields, 2); }
    assert(string_views(failures@) =~= workspace_invalid_fields(project_path_count));
    finish(failures)
}

// ---------------------------------------------------------------- settings from text

/// A setting given as text that does not read as its type.
#[derive(Debug, Clone, PartialEq, Eq)]
pub struct InvalidSetting {
    /// The configuration field the text was meant for
    pub field: String,
    /// What was wrong with it
    pub message: String,
}

/// The complaint about an unreadable setting: `Invalid <label>: <text>`.
pub open spec fn invalid_setting_message(label: Seq<char>, value: Seq<char>) -> Seq<char> {
    "Invalid "@ + label + ": "@ + value
}

/// The complaint about a setting that does not read.
fn invalid_setting(field: &str, label: &str, value: &str) -> (e: InvalidSetting)
    ensures
        e.field@ == field@,
        e.message@ == invalid_setting_message(label@, value@),
{
    let mut message = String::new();
    message.append("Invalid ");
    message.append(label);
    message.append(": ");
    message.append(value);
    InvalidSetting { field: field.to_owned(), message }
}

/// Read a setting as an unsigned integer of at most `max`, as `str::parse` reads it;
/// text that does not read is refused with the field it was meant for.
pub fn parse_unsigned_setting(field: &str, label: &str, value: &str, max: u64) -> (r: Result<u64, InvalidSetting>)
    ensures
        match unsigned_value(value@, max as nat) {
            Some(v) => r == Ok::<u64, InvalidSetting>(v as u64),
            None => r matches Err(e) && e.field@ == field@ && e.message@ == invalid_setting_message(label@, value@),
        },
{
    match parse_unsigned(value, max) {
        Some(v) => Ok(v),
        None => Err(invalid_setting(field, label, value)),
    }
}

/// A setting named on the command line.
#[derive(Debug, Clone, PartialEq, Eq)]
pub enum CliSetting {
    /// `scan-interval`: seconds between gap scans
    ScanInterval(u64),
    /// `confidence-threshold`: a fraction, read by the caller
    ConfidenceThreshold,
    /// `max-concurrent-tasks`: how many research tasks run at once
    MaxConcurrentTasks(u32),
    /// Any other argument, which is ignored
    Unknown,
}

/// Read one command-line argument: the scan interval and task limit as integers, the
/// confidence threshold left to the caller, anything else ignored.
pub fn parse_cli_setting(key: &str, value: &str) -> (r: Result<CliSetting, InvalidSetting>)
    ensures
        key@ == "scan-interval"@ ==> match unsigned_value(value@, u64::MAX as nat) {
            Some(v) => r == Ok::<CliSetting, InvalidSetting>(CliSetting::ScanInterval(v as u64)),
            None => (r matches Err(e) && e.field@ == "scan_intervals_seconds"@
                && e.message@ == invalid_setting_message("scan interval"@, value@)),
        },
        key@ == "confidence-threshold"@ ==> r == Ok::<CliSetting, InvalidSetting>(CliSetting::ConfidenceThreshold),
        key@ == "max-concurrent-tasks"@ ==> match unsigned_value(value@, u32::MAX as nat) {
            Some(v) => r == Ok::<CliSetting, InvalidSetting>(CliSetting::MaxConcurrentTasks(v as u32)),
            None => (r matches Err(e) && e.field@ == "max_concurrent_tasks"@
                && e.message@ == invalid_setting_message("max concurrent tasks"@, value@)),
        },
        key@ != "scan-interval"@ && key@ != "confidence-threshold"@ && key@ != "max-concurrent-tasks"@
            ==> r == Ok::<CliSetting, InvalidSetting>(CliSetting::Unknown),
{
    proof {
        reveal_strlit("scan-interval");
        reveal_strlit("confidence-threshold");
        reveal_strlit("max-concurrent-tasks");
        assert("confidence-threshold"@[0] != "scan-interval"@[0]);
        assert("max-concurrent-tasks"@[0] != "scan-interval"@[0]);
        assert("max-concurrent-tasks"@[0] != "confidence-threshold"@[0]);
    }
    if str_equal(key, "scan-interval") {
        match parse_unsigned_setting("scan_intervals_seconds", "scan interval", value, u64::MAX) {
            Ok(v) => Ok(CliSetting::ScanInterval(v)),
            Err(e) => Err(e),
        }
    } else if str_equal(key, "confidence-threshold") {
        Ok(CliSetting::ConfidenceThreshold)
    } else if str_equal(key, "max-concurrent-tasks") {
        match parse_unsigned_setting("max_concurrent_tasks", "max concurrent tasks", value, u32::MAX as u64) {
            Ok(v) => Ok(CliSetting::MaxConcurrentTasks(v as u32)),
            Err(e) => Err(e),
        }
    } else {
        Ok(CliSetting::Unknown)
    }
}

/// The channels named by a comma-separated list, each with surrounding white space
/// removed (empty pieces are kept).
pub open spec fn channel_list(s: Seq<char>) -> Seq<Seq<char>> {
    char_fields(s, ',').map_values(|f: Seq<char>| trimmed(f))
}

/// Read a comma-separated list of notification channels.
pub fn parse_channel_list(value: &str) -> (r: Vec<String>)
    ensures
        string_views(r@) == channel_list(value@),
{
    let pieces = split_on_char(value, ',');
    let ghost fields = char_fields(value@, ',');
    let mut r: Vec<String> = Vec::new();
    let mut i: usize = 0;
    while i < pieces.len()
        invariant
            i <= pieces@.len(),
            string_views(pieces@) == fields,
            string_views(r@) == fields.take(i as int).map_values(|f: Seq<char>| trimmed(f)),
        decreases pieces.len() - i,
    {
        let ghost before = string_views(r@);
        let t = trim(pieces[i].as_str());
        assert(pieces@[i as int]@ == fields[i as int]);
        r.push(t);
        assert(string_views(r@) =~= before.push(trimmed(fields[i as int])));
        assert(fields.take(i + 1).map_values(|f: Seq<char>| trimmed(f))
            =~= fields.take(i as int).map_values(|f: Seq<char>| trimmed(f)).push(trimmed(fields[i as int])));
        i = i + 1;
    }
    assert(fields.take(fields.len() as int) =~= fields);
    r
}

/// What a deployment environment changes in the default configuration.
#[derive(Debug, Clone, Copy, PartialEq, Eq, Structural)]
pub struct EnvironmentSettings {
    /// Seconds between gap scans
    pub scan_intervals_seconds: Option<u64>,
    /// CPU limit, in percent
    pub max_cpu_percent: Option<u8>,
    /// Whether performance monitoring runs
    pub monitoring_enabled: Option<bool>,
    /// Research requests allowed per minute
    pub rate_limit_requests_per_minute: Option<u32>,
}

/// The settings of a named environment: frequent scans, a high CPU limit and no
/// monitoring in development; moderate scans with monitoring in staging; rare scans,
/// conservative rate limiting and monitoring in production; nothing for any other name.
pub open spec fn environment_settings_of(environment: Seq<char>) -> EnvironmentSettings {
    if environment == "development"@ {
        EnvironmentSettings {
            scan_intervals_seconds: Some(60),
            max_cpu_percent: Some(90),
            monitoring_enabled: Some(false),
            rate_limit_requests_per_minute: None,
        }
    } else if environment == "staging"@ {
        EnvironmentSettings {
            scan_intervals_seconds: Some(300),
            max_cpu_percent: None,
            monitoring_enabled: Some(true),
            rate_limit_requests_per_minute: None,
        }
    } else if environment == "production"@ {
        EnvironmentSettings {
            scan_intervals_seconds: Some(600),
            max_cpu_percent: None,
            monitoring_enabled: Some(true),
            rate_limit_requests_per_minute: Some(30),
        }
    } else {
        EnvironmentSettings {
            scan_intervals_seconds: None,
            max_cpu_percent: None,
            monitoring_enabled: None,
            rate_limit_requests_per_minute: None,
        }
    }
}

/// The settings that a deployment environment brings.
pub fn environment_settings(environment: &str) -> (r: EnvironmentSettings)
    ensures
        r == environment_settings_of(environment@),
{
    if str_equal(environment, "development") {
        EnvironmentSettings {
            scan_intervals_seconds: Some(60),
            max_cpu_percent: Some(90),
            monitoring_enabled: Some(false),
            rate_limit_requests_per_minute: None,
        }
    } else if str_equal(environment, "staging") {
        EnvironmentSettings {
            scan_intervals_seconds: Some(300),
            max_cpu_percent: None,
            monitoring_enabled: Some(true),
            rate_limit_requests_per_minute: None,
        }
    } else if str_equal(environment, "production") {
        EnvironmentSettings {
            scan_intervals_seconds: Some(600),
            max_cpu_percent: None,
            monitoring_enabled: Some(true),
            rate_limit_requests_per_minute: Some(30),
        }
    } else {
        EnvironmentSettings {
            scan_intervals_seconds: None,
            max_cpu_percent: None,
            monitoring_enabled: None,
            rate_limit_requests_per_minute: None,
        }
    }
}

/// The configuration format versions that can be loaded.
#[derive(Debug, Clone, Copy, PartialEq, Eq, Structural)]
pub enum ConfigVersion {
    /// Version 1.0, migrated on load
    V1,
    /// Version 2.0, the current one
    V2,
}

/// The current configuration format version.
pub fn current_version() -> (v: String)
    ensures
        v@ == "2.0"@,
{
    "2.0".to_owned()
}

/// Read a configuration's version: "1.0" and "2.0" are known; any other is refused with
/// the unsupported version.
pub fn config_version(version: &str) -> (r: Result<ConfigVersion, String>)
    ensures
        version@ == "1.0"@ ==> r == Ok::<ConfigVersion, String>(ConfigVersion::V1),
        version@ == "2.0"@ ==> r == Ok::<ConfigVersion, String>(ConfigVersion::V2),
        version@ != "1.0"@ && version@ != "2.0"@ ==> (r matches Err(v) && v@ == version@),
{
    proof {
        reveal_strlit("1.0");
        reveal_strlit("2.0");
        assert("2.0"@[0] != "1.0"@[0]);
    }
    if str_equal(version, "1.0") {
        Ok(ConfigVersion::V1)
    } else if str_equal(version, "2.0") {
        Ok(ConfigVersion::V2)
    } else {
        Err(version.to_owned())
    }
}

} // verus!
