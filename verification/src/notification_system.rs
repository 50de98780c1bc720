//! Notifications, their channels and types, the per-channel rate limiter, delivery
//! counters, batch buffering and the text layout of delivered notifications.

use vstd::prelude::*;
use std::collections::HashMap;
use crate::clock::{format_utc_timestamp, is_hyphenated_uuid, new_uuid_v4, utc_now_nanos, utc_timestamp_text};
use crate::label_counts::LabelCounts;
use crate::text::{append_decimal, debug_quoted, decimal, quoted_debug, str_equal};

verus! {

/// Errors that can occur in the notification system.
#[derive(Debug, Clone, PartialEq, Eq)]
pub enum NotificationSystemError {
    ChannelDeliveryFailed { channel: String, message: String, retry_count: u32 },
    InvalidConfiguration { field: String, reason: String },
    FileIo { path: String, error: String },
    HttpEndpoint { endpoint: String, status: Option<u16>, error: String },
    FormattingError { notification_type: String, error: String },
    ChannelNotConfigured { channel: String },
    RateLimitExceeded { channel: String, current: u32, limit: u32 },
    NotInitialized,
}

/// The message of a notification system error.
pub open spec fn system_error_text(e: NotificationSystemError) -> Seq<char> {
    match e {
        NotificationSystemError::ChannelDeliveryFailed { channel, message, .. } =>
            "Channel delivery failed: "@ + channel@ + " - "@ + message@,
        NotificationSystemError::InvalidConfiguration { field, reason } =>
            "Invalid notification configuration: "@ + field@ + " - "@ + reason@,
        NotificationSystemError::FileIo { path, error } => "File I/O error: "@ + path@ + " - "@ + error@,
        NotificationSystemError::HttpEndpoint { endpoint, status, error } =>
            "HTTP endpoint error: "@ + endpoint@ + " - status: "@ + match status {
                Some(c) => "Some("@ + decimal(c as nat) + ")"@,
                None => "None"@,
            } + ", error: "@ + error@,
        NotificationSystemError::FormattingError { notification_type, error } =>
            "Notification formatting error: "@ + notification_type@ + " - "@ + error@,
        NotificationSystemError::ChannelNotConfigured { channel } => "Channel not configured: "@ + channel@,
        NotificationSystemError::RateLimitExceeded { channel, current, limit } =>
            "Rate limit exceeded for channel: "@ + channel@ + " - "@ + decimal(current as nat) + "/"@
                + decimal(limit as nat) + " notifications"@,
        NotificationSystemError::NotInitialized => "Notification system not initialized"@,
    }
}

/// The debug rendering of a notification system error, as its derived `Debug` writes
/// it: the variant's name, then its fields by name in declaration order, texts quoted.
pub open spec fn system_error_debug(e: NotificationSystemError) -> Seq<char> {
    match e {
        NotificationSystemError::ChannelDeliveryFailed { channel, message, retry_count } =>
            "ChannelDeliveryFailed { channel: "@ + debug_quoted(channel@) + ", message: "@ + debug_quoted(message@)
                + ", retry_count: "@ + decimal(retry_count as nat) + " }"@,
        NotificationSystemError::InvalidConfiguration { field, reason } =>
            "InvalidConfiguration { field: "@ + debug_quoted(field@) + ", reason: "@ + debug_quoted(reason@) + " }"@,
        NotificationSystemError::FileIo { path, error } =>
            "FileIo { path: "@ + debug_quoted(path@) + ", error: "@ + debug_quoted(error@) + " }"@,
        NotificationSystemError::HttpEndpoint { endpoint, status, error } =>
            "HttpEndpoint { endpoint: "@ + debug_quoted(endpoint@) + ", status: "@ + match status {
                Some(c) => "Some("@ + decimal(c as nat) + ")"@,
                None => "None"@,
            } + ", error: "@ + debug_quoted(error@) + " }"@,
        NotificationSystemError::FormattingError { notification_type, error } =>
            "FormattingError { notification_type: "@ + debug_quoted(notification_type@) + ", error: "@
                + debug_quoted(error@) + " }"@,
        NotificationSystemError::ChannelNotConfigured { channel } =>
            "ChannelNotConfigured { channel: "@ + debug_quoted(channel@) + " }"@,
        NotificationSystemError::RateLimitExceeded { channel, current, limit } =>
            "RateLimitExceeded { channel: "@ + debug_quoted(channel@) + ", current: "@ + decimal(current as nat)
                + ", limit: "@ + decimal(limit as nat) + " }"@,
        NotificationSystemError::NotInitialized => "NotInitialized"@,
    }
}

impl NotificationSystemError {
    /// The error's message.
    pub fn to_string(&self) -> (s: String)
        ensures
            s@ == system_error_text(*self),
    {
        let mut s = String::new();
        match self {
            NotificationSystemError::ChannelDeliveryFailed { channel, message, .. } => {
                s.append("Channel delivery failed: ");
                s.append(channel.as_str());
                s.append(" - ");
                s.append(message.as_str());
            },
            NotificationSystemError::InvalidConfiguration { field, reason } => {
                s.append("Invalid notification configuration: ");
                s.append(field.as_str());
                s.append(" - ");
                s.append(reason.as_str());
            },
            NotificationSystemError::FileIo { path, error } => {
                s.append("File I/O error: ");
                s.append(path.as_str());
                s.append(" - ");
                s.append(error.as_str());
            },
            NotificationSystemError::HttpEndpoint { endpoint, status, error } => {
                s.append("HTTP endpoint error: ");
                s.append(endpoint.as_str());
                s.append(" - status: ");
                match status {
                    Some(c) => {
                        s.append("Some(");
                        append_decimal(&mut s, *c as u64);
                        s.append(")");
                    },
                    None => s.append("None"),
                }
                s.append(", error: ");
                s.append(error.as_str());
            },
            NotificationSystemError::FormattingError { notification_type, error } => {
                s.append("Notification formatting error: ");
                s.append(notification_type.as_str());
                s.append(" - ");
                s.append(error.as_str());
            },
            NotificationSystemError::ChannelNotConfigured { channel } => {
                s.append("Channel not configured: ");
                s.append(channel.as_str());
            },
            NotificationSystemError::RateLimitExceeded { channel, current, limit } => {
                s.append("Rate limit exceeded for channel: ");
                s.append(channel.as_str());
                s.append(" - ");
                append_decimal(&mut s, *current as u64);
                s.append("/");
                append_decimal(&mut s, *limit as u64);
                s.append(" notifications");
            },
            NotificationSystemError::NotInitialized => s.append("Notification system not initialized"),
        }
        s
    }

    /// The error's debug rendering (see `system_error_debug`).
    pub fn debug_text(&self) -> (s: String)
        ensures
            s@ == system_error_debug(*self),
    {
        let mut s = String::new();
        match self {
            NotificationSystemError::ChannelDeliveryFailed { channel, message, retry_count } => {
                s.append("ChannelDeliveryFailed { channel: ");
                s.append(quoted_debug(channel.as_str()).as_str());
                s.append(", message: ");
                s.append(quoted_debug(message.as_str()).as_str());
                s.append(", retry_count: ");
                append_decimal(&mut s, *retry_count as u64);
                s.append(" }");
            },
            NotificationSystemError::InvalidConfiguration { field, reason } => {
                s.append("InvalidConfiguration { field: ");
                s.append(quoted_debug(field.as_str()).as_str());
                s.append(", reason: ");
                s.append(quoted_debug(reason.as_str()).as_str());
                s.append(" }");
            },
            NotificationSystemError::FileIo { path, error } => {
                s.append("FileIo { path: ");
                s.append(quoted_debug(path.as_str()).as_str());
                s.append(", error: ");
                s.append(quoted_debug(error.as_str()).as_str());
                s.append(" }");
            },
            NotificationSystemError::HttpEndpoint { endpoint, status, error } => {
                s.append("HttpEndpoint { endpoint: ");
                s.append(quoted_debug(endpoint.as_str()).as_str());
                s.append(", status: ");
                match status {
                    Some(c) => {
                        s.append("Some(");
                        append_decimal(&mut s, *c as u64);
                        s.append(")");
                    },
                    None => s.append("None"),
                }
                s.append(", error: ");
                s.append(quoted_debug(error.as_str()).as_str());
                s.append(" }");
            },
            NotificationSystemError::FormattingError { notification_type, error } => {
                s.append("FormattingError { notification_type: ");
                s.append(quoted_debug(notification_type.as_str()).as_str());
                s.append(", error: ");
                s.append(quoted_debug(error.as_str()).as_str());
                s.append(" }");
            },
            NotificationSystemError::ChannelNotConfigured { channel } => {
                s.append("ChannelNotConfigured { channel: ");
                s.append(quoted_debug(channel.as_str()).as_str());
                s.append(" }");
            },
            NotificationSystemError::RateLimitExceeded { channel, current, limit } => {
                s.append("RateLimitExceeded { channel: ");
                s.append(quoted_debug(channel.as_str()).as_str());
                s.append(", current: ");
                append_decimal(&mut s, *current as u64);
                s.append(", limit: ");
                append_decimal(&mut s, *limit as u64);
                s.append(" }");
            },
            NotificationSystemError::NotInitialized => s.append("NotInitialized"),
        }
        s
    }
}

/// Available notification channels.
#[derive(Debug, Clone, PartialEq, Eq, Hash)]
pub enum NotificationChannel {
    /// CLI output (stdout/stderr with colors)
    CLI,
    /// File-based notifications (log files with timestamps)
    File { path: String },
    /// API-based notifications (HTTP endpoints)
    API { endpoint: String },
}

/// The key under which a channel is configured, rate limited and measured.
pub open spec fn channel_key_of(c: NotificationChannel) -> Seq<char> {
    match c {
        NotificationChannel::CLI => "cli"@,
        NotificationChannel::File { .. } => "file"@,
        NotificationChannel::API { .. } => "api"@,
    }
}

impl NotificationChannel {
    /// The display form: `CLI`, `File(<path>)` or `API(<endpoint>)`.
    pub fn to_string(&self) -> (s: String)
        ensures
            s@ == match *self {
                NotificationChannel::CLI => "CLI"@,
                NotificationChannel::File { path } => "File("@ + path@ + ")"@,
                NotificationChannel::API { endpoint } => "API("@ + endpoint@ + ")"@,
            },
    {
        match self {
            NotificationChannel::CLI => "CLI".to_owned(),
            NotificationChannel::File { path } => {
                let mut s = String::new();
                s.append("File(");
                s.append(path.as_str());
                s.append(")");
                s
            },
            NotificationChannel::API { endpoint } => {
                let mut s = String::new();
                s.append("API(");
                s.append(endpoint.as_str());
                s.append(")");
                s
            },
        }
    }

    /// Get channel key for metrics and rate limiting.
    pub fn channel_key(&self) -> (s: String)
        ensures
            s@ == channel_key_of(*self),
    {
        match self {
            NotificationChannel::CLI => "cli".to_owned(),
            NotificationChannel::File { .. } => "file".to_owned(),
            NotificationChannel::API { .. } => "api".to_owned(),
        }
    }
}

/// Types of notifications that can be sent.
#[derive(Debug, Clone, Copy, PartialEq, Eq, Structural, Hash)]
pub enum NotificationType {
    /// General information
    Info,
    /// Warning messages
    Warning,
    /// Error messages
    Error,
    /// Progress updates
    Progress { current: u32, total: u32 },
    /// Success messages
    Success,
    /// Debug information
    Debug,
}

/// The label of a notification type.
pub open spec fn type_label(t: NotificationType) -> Seq<char> {
    match t {
        NotificationType::Info => "INFO"@,
        NotificationType::Warning => "WARN"@,
        NotificationType::Error => "ERROR"@,
        NotificationType::Progress { current, total } => "PROGRESS("@ + decimal(current as nat) + "/"@
            + decimal(total as nat) + ")"@,
        NotificationType::Success => "SUCCESS"@,
        NotificationType::Debug => "DEBUG"@,
    }
}

impl NotificationType {
    /// The display form: `INFO`, `WARN`, `ERROR`, `PROGRESS(<current>/<total>)`,
    /// `SUCCESS` or `DEBUG`.
    pub fn to_string(&self) -> (s: String)
        ensures
            s@ == type_label(*self),
    {
        match self {
            NotificationType::Info => "INFO".to_owned(),
            NotificationType::Warning => "WARN".to_owned(),
            NotificationType::Error => "ERROR".to_owned(),
            NotificationType::Progress { current, total } => {
                let mut s = String::new();
                s.append("PROGRESS(");
                append_decimal(&mut s, *current as u64);
                s.append("/");
                append_decimal(&mut s, *total as u64);
                s.append(")");
                s
            },
            NotificationType::Success => "SUCCESS".to_owned(),
            NotificationType::Debug => "DEBUG".to_owned(),
        }
    }
}

/// Individual notification message.
#[derive(Debug, Clone)]
pub struct Notification {
    pub id: String,
    pub notification_type: NotificationType,
    pub title: String,
    pub message: String,
    /// Creation time, nanoseconds since the Unix epoch
    pub timestamp_nanos: i64,
    pub source_component: Option<String>,
    pub metadata: HashMap<String, String>,
    pub channels: Vec<NotificationChannel>,
}

impl Notification {
    /// A notification with the given identity and time, no source and no metadata.
    pub fn new_at(
        id: String,
        notification_type: NotificationType,
        title: String,
        message: String,
        channels: Vec<NotificationChannel>,
        timestamp_nanos: i64,
    ) -> (n: Notification)
        ensures
            n.id == id,
            n.notification_type == notification_type,
            n.title == title,
            n.message == message,
            n.channels == channels,
            n.timestamp_nanos == timestamp_nanos,
            n.source_component.is_none(),
            n.metadata@ == Map::<String, String>::empty(),
    {
        Notification {
            id,
            notification_type,
            title,
            message,
            timestamp_nanos,
            source_component: None,
            metadata: HashMap::new(),
            channels,
        }
    }

    /// A notification with a fresh random identifier, stamped now.
    pub fn new(
        notification_type: NotificationType,
        title: String,
        message: String,
        channels: Vec<NotificationChannel>,
    ) -> (n: Notification)
        ensures
            n.notification_type == notification_type,
            n.title == title,
            n.message == message,
            n.channels == channels,
            n.source_component.is_none(),
            n.metadata@ == Map::<String, String>::empty(),
            is_hyphenated_uuid(n.id@),
    {
        let id = new_uuid_v4();
        let now = utc_now_nanos();
        Self::new_at(id, notification_type, title, message, channels, now)
    }

    /// Set the source component.
    pub fn with_source(self, source: String) -> (n: Notification)
        ensures
            n == (Notification { source_component: Some(source), ..self }),
    {
        Notification { source_component: Some(source), ..self }
    }

    /// Replace the metadata.
    pub fn with_metadata(self, metadata: HashMap<String, String>) -> (n: Notification)
        ensures
            n == (Notification { metadata, ..self }),
    {
        Notification { metadata, ..self }
    }
}

/// Configuration for notification channels.
#[derive(Debug, Clone, PartialEq, Eq)]
pub struct NotificationChannelConfig {
    pub enabled: bool,
    pub rate_limit_per_minute: Option<u32>,
    pub min_notification_level: NotificationType,
    pub format_template: Option<String>,
    pub retry_count: u32,
    pub retry_delay_ms: u64,
}

impl Default for NotificationChannelConfig {
    fn default() -> (c: NotificationChannelConfig)
        ensures
            c == (NotificationChannelConfig {
                enabled: true,
                rate_limit_per_minute: Some(60),
                min_notification_level: NotificationType::Info,
                format_template: None,
                retry_count: 3,
                retry_delay_ms: 1000,
            }),
    {
        NotificationChannelConfig {
            enabled: true,
            rate_limit_per_minute: Some(60),
            min_notification_level: NotificationType::Info,
            format_template: None,
            retry_count: 3,
            retry_delay_ms: 1000,
        }
    }
}

/// Configuration for the notification system.
#[derive(Debug, Clone)]
pub struct NotificationSystemConfig {
    /// Per-channel configuration, keyed by channel key, each key once
    pub channel_configs: Vec<(String, NotificationChannelConfig)>,
    pub default_channels: Vec<NotificationChannel>,
    pub buffer_size: usize,
    pub batch_delivery: bool,
    pub batch_size: usize,
    pub batch_timeout_ms: u64,
    pub enable_metrics: bool,
    pub enable_delivery_verification: bool,
}

impl Default for NotificationSystemConfig {
    fn default() -> (c: NotificationSystemConfig)
        ensures
            c.channel_configs@.len() == 3,
            c.channel_configs@[0].0@ == "cli"@,
            c.channel_configs@[1].0@ == "file"@,
            c.channel_configs@[2].0@ == "api"@,
            forall|i: int| 0 <= i < 3 ==> #[trigger] c.channel_configs@[i].1 == (NotificationChannelConfig {
                enabled: true,
                rate_limit_per_minute: Some(60),
                min_notification_level: NotificationType::Info,
                format_template: None,
                retry_count: 3,
                retry_delay_ms: 1000,
            }),
            c.default_channels@ == seq![NotificationChannel::CLI],
            c.buffer_size == 1000,
            !c.batch_delivery,
            c.batch_size == 10,
            c.batch_timeout_ms == 5000,
            c.enable_metrics,
            !c.enable_delivery_verification,
    {
        let channel_configs = vec![
            ("cli".to_owned(), NotificationChannelConfig::default()),
            ("file".to_owned(), NotificationChannelConfig::default()),
            ("api".to_owned(), NotificationChannelConfig::default()),
        ];
        let default_channels = vec![NotificationChannel::CLI];
        assert(default_channels@ =~= seq![NotificationChannel::CLI]);
        NotificationSystemConfig {
            channel_configs,
            default_channels,
            buffer_size: 1000,
            batch_delivery: false,
            batch_size: 10,
            batch_timeout_ms: 5000,
            enable_metrics: true,
            enable_delivery_verification: false,
        }
    }
}

/// Per-minute rate limiter for a notification channel.
#[derive(Debug, Clone, Copy, PartialEq, Eq, Structural)]
pub struct ChannelRateLimiter {
    pub limit: u32,
    /// Start of the current one-minute window, nanoseconds on the caller's clock
    pub window_start_nanos: u64,
    /// Sends admitted in the current window
    pub count: u32,
}

/// A new window starts once sixty whole seconds have passed since the current one began.
pub open spec fn window_expired(l: ChannelRateLimiter, now: u64) -> bool {
    (if now >= l.window_start_nanos { now - l.window_start_nanos } else { 0 }) >= 60_000_000_000
}

/// The limiter as a send at `now` sees it: a fresh window when the current one expired.
pub open spec fn limiter_window(l: ChannelRateLimiter, now: u64) -> ChannelRateLimiter {
    if window_expired(l, now) {
        ChannelRateLimiter { window_start_nanos: now, count: 0, ..l }
    } else {
        l
    }
}

impl ChannelRateLimiter {
    /// A limiter admitting `limit_per_minute` sends per window, the first starting at
    /// `now_nanos`.
    pub fn new_at(limit_per_minute: u32, now_nanos: u64) -> (l: ChannelRateLimiter)
        ensures
            l == (ChannelRateLimiter { limit: limit_per_minute, window_start_nanos: now_nanos, count: 0 }),
    {
        ChannelRateLimiter { limit: limit_per_minute, window_start_nanos: now_nanos, count: 0 }
    }

    /// Decide whether a send at `now_nanos` may go out, counting it when it may.
    pub fn can_send_at(&mut self, now_nanos: u64) -> (r: bool)
        ensures
            r == (limiter_window(*old(self), now_nanos).count < old(self).limit),
            *final(self) == (if r {
                ChannelRateLimiter { count: (limiter_window(*old(self), now_nanos).count + 1) as u32, ..limiter_window(*old(self), now_nanos) }
            } else {
                limiter_window(*old(self), now_nanos)
            }),
    {
        let elapsed: u64 = if now_nanos >= self.window_start_nanos {
            now_nanos - self.window_start_nanos
        } else {
            0
        };
        if elapsed >= 60_000_000_000 {
            self.window_start_nanos = now_nanos;
            self.count = 0;
        }
        if self.count >= self.limit {
            false
        } else {
            self.count = self.count + 1;
            true
        }
    }
}

/// A channel never admits more sends in a window than its limit: the window count
/// stays at or below the limit through every send.
pub proof fn lemma_rate_limit_respected(l: ChannelRateLimiter, now: u64)
    requires
        l.count <= l.limit,
    ensures
        limiter_window(l, now).count <= l.limit,
        limiter_window(l, now).count < l.limit ==> limiter_window(l, now).count + 1 <= l.limit,
{
}

/// Within one window, once `limit` sends went out every further send is refused until
/// the window expires.
pub proof fn lemma_exhausted_window_refuses(l: ChannelRateLimiter, now: u64)
    requires
        l.count >= l.limit,
        !window_expired(l, now),
    ensures
        !(limiter_window(l, now).count < l.limit),
        limiter_window(l, now) == l,
{
}

/// The rate-limit error for a refused send on the channel with key `channel`.
pub fn rate_limit_error(channel: String, limiter: &ChannelRateLimiter) -> (e: NotificationSystemError)
    ensures
        e == (NotificationSystemError::RateLimitExceeded { channel, current: limiter.count, limit: limiter.limit }),
{
    NotificationSystemError::RateLimitExceeded { channel, current: limiter.count, limit: limiter.limit }
}

/// Delivery statistics for a channel.
#[derive(Debug, Clone, Copy, PartialEq, Eq, Structural)]
pub struct ChannelMetrics {
    pub total_sent: u64,
    pub successful_deliveries: u64,
    pub failed_deliveries: u64,
    pub retry_attempts: u64,
    pub rate_limit_hits: u64,
    /// Time of the last successful delivery, nanoseconds since the Unix epoch
    pub last_delivery_nanos: Option<i64>,
}

impl Default for ChannelMetrics {
    fn default() -> (m: ChannelMetrics)
        ensures
            m == (ChannelMetrics {
                total_sent: 0,
                successful_deliveries: 0,
                failed_deliveries: 0,
                retry_attempts: 0,
                rate_limit_hits: 0,
                last_delivery_nanos: None,
            }),
    {
        ChannelMetrics {
            total_sent: 0,
            successful_deliveries: 0,
            failed_deliveries: 0,
            retry_attempts: 0,
            rate_limit_hits: 0,
            last_delivery_nanos: None,
        }
    }
}

impl ChannelMetrics {
    /// Count a successful delivery at `now_nanos`.
    pub fn record_success_at(&mut self, now_nanos: i64)
        requires
            old(self).total_sent < u64::MAX,
            old(self).successful_deliveries < u64::MAX,
        ensures
            *final(self) == (ChannelMetrics {
                total_sent: (old(self).total_sent + 1) as u64,
                successful_deliveries: (old(self).successful_deliveries + 1) as u64,
                last_delivery_nanos: Some(now_nanos),
                ..*old(self)
            }),
    {
        self.total_sent = self.total_sent + 1;
        self.successful_deliveries = self.successful_deliveries + 1;
        self.last_delivery_nanos = Some(now_nanos);
    }

    /// Count a failed delivery.
    pub fn record_failure(&mut self)
        requires
            old(self).total_sent < u64::MAX,
            old(self).failed_deliveries < u64::MAX,
        ensures
            *final(self) == (ChannelMetrics {
                total_sent: (old(self).total_sent + 1) as u64,
                failed_deliveries: (old(self).failed_deliveries + 1) as u64,
                ..*old(self)
            }),
    {
        self.total_sent = self.total_sent + 1;
        self.failed_deliveries = self.failed_deliveries + 1;
    }
}

/// Every delivery counted is either a success or a failure.
pub proof fn lemma_channel_metrics_balanced(m: ChannelMetrics, now: i64)
    requires
        m.total_sent == m.successful_deliveries + m.failed_deliveries,
        m.total_sent < u64::MAX,
    ensures
        ({
            let s = ChannelMetrics {
                total_sent: (m.total_sent + 1) as u64,
                successful_deliveries: (m.successful_deliveries + 1) as u64,
                last_delivery_nanos: Some(now),
                ..m
            };
            s.total_sent == s.successful_deliveries + s.failed_deliveries
        }),
        ({
            let f = ChannelMetrics {
                total_sent: (m.total_sent + 1) as u64,
                failed_deliveries: (m.failed_deliveries + 1) as u64,
                ..m
            };
            f.total_sent == f.successful_deliveries + f.failed_deliveries
        }),
{
}

/// System-wide notification counters.
#[derive(Debug)]
pub struct NotificationMetrics {
    pub total_notifications: u64,
    /// Notifications counted per type label
    pub notifications_by_type: LabelCounts,
    pub last_updated_nanos: i64,
}

impl NotificationMetrics {
    /// No notifications counted, stamped `now_nanos`.
    pub fn new_at(now_nanos: i64) -> (m: NotificationMetrics)
        ensures
            m.total_notifications == 0,
            m.notifications_by_type.wf(),
            m.notifications_by_type.counts() == Map::<Seq<char>, u64>::empty(),
            m.last_updated_nanos == now_nanos,
    {
        NotificationMetrics { total_notifications: 0, notifications_by_type: LabelCounts::new(), last_updated_nanos: now_nanos }
    }

    /// Count a sent notification under its type label, at `now_nanos`.
    pub fn record_at(&mut self, notification_type: NotificationType, now_nanos: i64)
        requires
            old(self).notifications_by_type.wf(),
            old(self).total_notifications < u64::MAX,
            old(self).notifications_by_type.counts().contains_key(type_label(notification_type))
                ==> old(self).notifications_by_type.counts()[type_label(notification_type)] < u64::MAX,
        ensures
            final(self).notifications_by_type.wf(),
            final(self).total_notifications == old(self).total_notifications + 1,
            final(self).notifications_by_type.counts() == old(self).notifications_by_type.counts().insert(
                type_label(notification_type),
                if old(self).notifications_by_type.counts().contains_key(type_label(notification_type)) {
                    (old(self).notifications_by_type.counts()[type_label(notification_type)] + 1) as u64
                } else {
                    1
                },
            ),
            final(self).last_updated_nanos == now_nanos,
    {
        self.total_notifications = self.total_notifications + 1;
        let label = notification_type.to_string();
        self.notifications_by_type.increment(label.as_str());
        self.last_updated_nanos = now_nanos;
    }
}

/// Notifications waiting for batch delivery.
#[derive(Debug)]
pub struct NotificationBuffer {
    pending: Vec<Notification>,
    batch_size: usize,
}

impl NotificationBuffer {
    /// The waiting notifications, oldest first.
    pub closed spec fn pending(&self) -> Seq<Notification> {
        self.pending@
    }

    /// How many notifications make a batch.
    pub closed spec fn batch_size(&self) -> nat {
        self.batch_size as nat
    }

    /// An empty buffer delivering in batches of `batch_size`.
    pub fn new(batch_size: usize) -> (b: NotificationBuffer)
        ensures
            b.pending() == Seq::<Notification>::empty(),
            b.batch_size() == batch_size,
    {
        NotificationBuffer { pending: Vec::new(), batch_size }
    }

    /// Buffer a notification; when the buffer reaches the batch size, everything
    /// waiting is handed back for delivery, oldest first, and the buffer empties.
    pub fn push(&mut self, n: Notification) -> (batch: Vec<Notification>)
        ensures
            final(self).batch_size() == old(self).batch_size(),
            old(self).pending().len() + 1 >= old(self).batch_size() ==> batch@ == old(self).pending().push(n)
                && final(self).pending() == Seq::<Notification>::empty(),
            old(self).pending().len() + 1 < old(self).batch_size() ==> batch@ == Seq::<Notification>::empty()
                && final(self).pending() == old(self).pending().push(n),
    {
        self.pending.push(n);
        if self.pending.len() >= self.batch_size {
            let mut out: Vec<Notification> = Vec::new();
            std::mem::swap(&mut out, &mut self.pending);
            out
        } else {
            Vec::new()
        }
    }

    /// Hand back everything waiting, oldest first, and empty the buffer.
    pub fn drain(&mut self) -> (batch: Vec<Notification>)
        ensures
            batch@ == old(self).pending(),
            final(self).pending() == Seq::<Notification>::empty(),
            final(self).batch_size() == old(self).batch_size(),
    {
        let mut out: Vec<Notification> = Vec::new();
        std::mem::swap(&mut out, &mut self.pending);
        out
    }
}

/// A batch buffer never holds a full batch: after any push fewer than the batch size
/// (at least one) notifications wait, and nothing pushed is lost.
pub proof fn lemma_buffer_below_batch(pending: Seq<Notification>, batch_size: nat, n: Notification)
    requires
        pending.len() < if batch_size == 0 { 1 } else { batch_size },
    ensures
        ({
            let kept = if pending.len() + 1 >= batch_size { Seq::<Notification>::empty() } else { pending.push(n) };
            let sent = if pending.len() + 1 >= batch_size { pending.push(n) } else { Seq::<Notification>::empty() };
            &&& kept.len() < if batch_size == 0 { 1 } else { batch_size }
            &&& sent + kept == pending.push(n)
        }),
{
    let kept = if pending.len() + 1 >= batch_size { Seq::<Notification>::empty() } else { pending.push(n) };
    let sent = if pending.len() + 1 >= batch_size { pending.push(n) } else { Seq::<Notification>::empty() };
    assert(sent + kept =~= pending.push(n));
}

/// Route a notification for sending: refused when the system is not running; buffered
/// in batch mode, where a full buffer is handed back for delivery; otherwise handed back
/// alone for immediate delivery.
pub fn route_notification(
    running: bool,
    batch_delivery: bool,
    buffer: &mut NotificationBuffer,
    n: Notification,
) -> (r: Result<Vec<Notification>, NotificationSystemError>)
    ensures
        !running ==> r == Err::<Vec<Notification>, NotificationSystemError>(NotificationSystemError::NotInitialized)
            && final(buffer).pending() == old(buffer).pending(),
        running && !batch_delivery ==> (r matches Ok(v) && v@ == seq![n] && final(buffer).pending() == old(buffer).pending()),
        running && batch_delivery ==> (r matches Ok(v) && (if old(buffer).pending().len() + 1 >= old(buffer).batch_size() {
            v@ == old(buffer).pending().push(n) && final(buffer).pending() == Seq::<Notification>::empty()
        } else {
            v@ == Seq::<Notification>::empty() && final(buffer).pending() == old(buffer).pending().push(n)
        })),
        final(buffer).batch_size() == old(buffer).batch_size(),
{
    if !running {
        return Err(NotificationSystemError::NotInitialized);
    }
    if batch_delivery {
        Ok(buffer.push(n))
    } else {
        let v = vec![n];
        assert(v@ =~= seq![n]);
        Ok(v)
    }
}

/// The colour escape that opens a CLI line of the given type.
pub open spec fn cli_color(t: NotificationType) -> Seq<char> {
    match t {
        NotificationType::Error => "\x1b[31m"@,
        NotificationType::Warning => "\x1b[33m"@,
        NotificationType::Success => "\x1b[32m"@,
        NotificationType::Info => "\x1b[36m"@,
        NotificationType::Debug => "\x1b[37m"@,
        NotificationType::Progress { .. } => "\x1b[34m"@,
    }
}

/// The source shown for a notification: its component, or `system`.
pub open spec fn source_label(n: Notification) -> Seq<char> {
    match n.source_component {
        Some(s) => s@,
        None => "system"@,
    }
}

/// The body of a delivered notification, after its time stamp: type, source, title,
/// message and, for progress, the counts and the given percentage.
pub open spec fn notification_body(n: Notification, percentage: u32) -> Seq<char> {
    let head = " "@ + type_label(n.notification_type) + " ["@ + source_label(n) + "] "@ + n.title@ + ": "@ + n.message@;
    match n.notification_type {
        NotificationType::Progress { current, total } => head + " ("@ + decimal(current as nat) + "/"@
            + decimal(total as nat) + " - "@ + decimal(percentage as nat) + "%)"@,
        _ => head,
    }
}

/// Appends the body of a notification to `s`.
fn append_body(s: &mut String, n: &Notification, percentage: u32)
    ensures
        final(s)@ == old(s)@ + notification_body(*n, percentage),
{
    let ghost start = s@;
    s.append(" ");
    let label = n.notification_type.to_string();
    s.append(label.as_str());
    s.append(" [");
    match &n.source_component {
        Some(src) => s.append(src.as_str()),
        None => s.append("system"),
    }
    s.append("] ");
    s.append(n.title.as_str());
    s.append(": ");
    s.append(n.message.as_str());
    match n.notification_type {
        NotificationType::Progress { current, total } => {
            s.append(" (");
            append_decimal(s, current as u64);
            s.append("/");
            append_decimal(s, total as u64);
            s.append(" - ");
            append_decimal(s, percentage as u64);
            s.append("%)");
        },
        _ => {},
    }
    assert(s@ =~= start + notification_body(*n, percentage));
}

/// Format a notification for file output: the bracketed time stamp and the body.
/// `progress_percentage` is the share of progress done, shown for progress notifications.
pub fn format_file_notification(n: &Notification, progress_percentage: u32) -> (s: String)
    ensures
        s@ == "["@ + utc_timestamp_text(n.timestamp_nanos) + "]"@ + notification_body(*n, progress_percentage),
{
    let ts = format_utc_timestamp(n.timestamp_nanos);
    let mut s = String::new();
    s.append("[");
    s.append(ts.as_str());
    s.append("]");
    append_body(&mut s, n, progress_percentage);
    s
}

/// Format a notification for the terminal: the colour of its type, the bracketed time
/// stamp, the body and the colour reset.
pub fn format_cli_notification(n: &Notification, progress_percentage: u32) -> (s: String)
    ensures
        s@ == cli_color(n.notification_type) + "["@ + utc_timestamp_text(n.timestamp_nanos) + "]"@
            + notification_body(*n, progress_percentage) + "\x1b[0m"@,
{
    let ts = format_utc_timestamp(n.timestamp_nanos);
    let mut s = String::new();
    match n.notification_type {
        NotificationType::Error => s.append("\x1b[31m"),
        NotificationType::Warning => s.append("\x1b[33m"),
        NotificationType::Success => s.append("\x1b[32m"),
        NotificationType::Info => s.append("\x1b[36m"),
        NotificationType::Debug => s.append("\x1b[37m"),
        NotificationType::Progress { .. } => s.append("\x1b[34m"),
    }
    s.append("[");
    s.append(ts.as_str());
    s.append("]");
    append_body(&mut s, n, progress_percentage);
    s.append("\x1b[0m");
    s
}


/// The three channel keys are distinct.
proof fn lemma_channel_keys_differ()
    ensures
        "cli"@ != "file"@,
        "cli"@ != "api"@,
        "file"@ != "api"@,
{
    reveal_strlit("cli");
    reveal_strlit("file");
    reveal_strlit("api");
    assert("cli"@.len() == 3);
    assert("file"@.len() == 4);
    assert("api"@.len() == 3);
    assert("cli"@[0] != "api"@[0]);
}

/// The position of the first limiter kept under `key`, or -1.
pub open spec fn limiter_index(s: Seq<(String, ChannelRateLimiter)>, key: Seq<char>) -> int
    decreases s.len(),
{
    if s.len() == 0 {
        -1
    } else {
        let j = limiter_index(s.drop_last(), key);
        if j >= 0 {
            j
        } else if s.last().0@ == key {
            s.len() - 1
        } else {
            -1
        }
    }
}

proof fn lemma_limiter_index_prefix(s: Seq<(String, ChannelRateLimiter)>, n: int, key: Seq<char>)
    requires
        0 <= n <= s.len(),
        limiter_index(s.take(n), key) >= 0,
    ensures
        limiter_index(s, key) == limiter_index(s.take(n), key),
    decreases s.len() - n,
{
    if n < s.len() {
        assert(s.take(n + 1).drop_last() =~= s.take(n));
        lemma_limiter_index_prefix(s, n + 1, key);
    } else {
        assert(s.take(n) =~= s);
    }
}

/// The limiters made when the system starts at `now`: one per configured channel with
/// a rate limit, in configuration order.
pub open spec fn limiters_for(configs: Seq<(String, NotificationChannelConfig)>, now: u64) -> Seq<(String, ChannelRateLimiter)>
    decreases configs.len(),
{
    if configs.len() == 0 {
        Seq::empty()
    } else {
        let rest = limiters_for(configs.drop_last(), now);
        match configs.last().1.rate_limit_per_minute {
            Some(r) => rest.push(
                (configs.last().0, ChannelRateLimiter { limit: r, window_start_nanos: now, count: 0 }),
            ),
            None => rest,
        }
    }
}

/// The notification system's state: running or not, the per-channel rate limiters,
/// the counters and the batch buffer.
#[derive(Debug)]
pub struct NotificationSystem {
    config: NotificationSystemConfig,
    running: bool,
    rate_limiters: Vec<(String, ChannelRateLimiter)>,
    metrics: NotificationMetrics,
    buffer: NotificationBuffer,
    cli_metrics: Option<ChannelMetrics>,
    file_metrics: Option<ChannelMetrics>,
    api_metrics: Option<ChannelMetrics>,
}

/// A channel's counters after one more delivery at `now`, starting from zero for a
/// channel with none yet.
pub open spec fn channel_metrics_after(m: Option<ChannelMetrics>, success: bool, now: i64) -> ChannelMetrics {
    let base = match m {
        Some(c) => c,
        None => ChannelMetrics {
            total_sent: 0,
            successful_deliveries: 0,
            failed_deliveries: 0,
            retry_attempts: 0,
            rate_limit_hits: 0,
            last_delivery_nanos: None,
        },
    };
    if success {
        ChannelMetrics {
            total_sent: (base.total_sent + 1) as u64,
            successful_deliveries: (base.successful_deliveries + 1) as u64,
            last_delivery_nanos: Some(now),
            ..base
        }
    } else {
        ChannelMetrics { total_sent: (base.total_sent + 1) as u64, failed_deliveries: (base.failed_deliveries + 1) as u64, ..base }
    }
}

/// Room to count one more delivery in a channel's counters.
pub open spec fn channel_metrics_room(m: Option<ChannelMetrics>) -> bool {
    match m {
        Some(c) => c.total_sent < u64::MAX && c.successful_deliveries < u64::MAX && c.failed_deliveries < u64::MAX,
        None => true,
    }
}

impl NotificationSystem {
    /// The counters of the channel with key `key` (`cli`, `file` or `api`), once it
    /// had a delivery.
    pub closed spec fn channel_metrics(&self, key: Seq<char>) -> Option<ChannelMetrics> {
        if key == "cli"@ {
            self.cli_metrics
        } else if key == "file"@ {
            self.file_metrics
        } else if key == "api"@ {
            self.api_metrics
        } else {
            None
        }
    }

    /// Count a delivery on `channel` at `now_nanos`, when metrics are enabled.
    pub fn record_delivery_at(&mut self, channel: &NotificationChannel, success: bool, now_nanos: i64)
        requires
            channel_metrics_room(old(self).channel_metrics(channel_key_of(*channel))),
        ensures
            final(self).settings() == old(self).settings(),
            final(self).is_running() == old(self).is_running(),
            final(self).limiters() == old(self).limiters(),
            final(self).pending() == old(self).pending(),
            final(self).total_sent() == old(self).total_sent(),
            final(self).sent_by_type() == old(self).sent_by_type(),
            final(self).wf() == old(self).wf(),
            forall|k: Seq<char>| k != channel_key_of(*channel) ==> #[trigger] final(self).channel_metrics(k) == old(self).channel_metrics(k),
            old(self).settings().enable_metrics ==> final(self).channel_metrics(channel_key_of(*channel)) == Some(
                channel_metrics_after(old(self).channel_metrics(channel_key_of(*channel)), success, now_nanos),
            ),
            !old(self).settings().enable_metrics ==> final(self).channel_metrics(channel_key_of(*channel))
                == old(self).channel_metrics(channel_key_of(*channel)),
    {
        proof { lemma_channel_keys_differ(); }
        if !self.config.enable_metrics {
            return;
        }
        let current = match channel {
            NotificationChannel::CLI => self.cli_metrics,
            NotificationChannel::File { .. } => self.file_metrics,
            NotificationChannel::API { .. } => self.api_metrics,
        };
        let mut m = match current {
            Some(c) => c,
            None => ChannelMetrics::default(),
        };
        if success {
            m.record_success_at(now_nanos);
        } else {
            m.record_failure();
        }
        match channel {
            NotificationChannel::CLI => self.cli_metrics = Some(m),
            NotificationChannel::File { .. } => self.file_metrics = Some(m),
            NotificationChannel::API { .. } => self.api_metrics = Some(m),
        }
    }

    /// The counters of the channel with key `key`, once it had a delivery.
    pub fn get_channel_metrics(&self, key: &str) -> (r: Option<ChannelMetrics>)
        ensures
            r == self.channel_metrics(key@),
    {
        if str_equal(key, "cli") {
            self.cli_metrics
        } else if str_equal(key, "file") {
            self.file_metrics
        } else if str_equal(key, "api") {
            self.api_metrics
        } else {
            None
        }
    }

    pub closed spec fn wf(&self) -> bool {
        &&& self.metrics.notifications_by_type.wf()
        &&& self.buffer.batch_size() == self.config.batch_size
    }

    pub closed spec fn settings(&self) -> NotificationSystemConfig {
        self.config
    }

    pub closed spec fn is_running(&self) -> bool {
        self.running
    }

    pub closed spec fn limiters(&self) -> Seq<(String, ChannelRateLimiter)> {
        self.rate_limiters@
    }

    pub closed spec fn pending(&self) -> Seq<Notification> {
        self.buffer.pending()
    }

    pub closed spec fn total_sent(&self) -> u64 {
        self.metrics.total_notifications
    }

    pub closed spec fn sent_by_type(&self) -> Map<Seq<char>, u64> {
        self.metrics.notifications_by_type.counts()
    }

    /// A stopped system with no limiters, nothing counted and an empty buffer.
    pub fn new_at(config: NotificationSystemConfig, now_nanos: i64) -> (s: NotificationSystem)
        ensures
            s.wf(),
            s.settings() == config,
            !s.is_running(),
            s.limiters() == Seq::<(String, ChannelRateLimiter)>::empty(),
            s.pending() == Seq::<Notification>::empty(),
            s.total_sent() == 0,
            s.sent_by_type() == Map::<Seq<char>, u64>::empty(),
            forall|k: Seq<char>| #[trigger] s.channel_metrics(k) is None,
    {
        let batch_size = config.batch_size;
        NotificationSystem {
            config,
            running: false,
            rate_limiters: Vec::new(),
            metrics: NotificationMetrics::new_at(now_nanos),
            buffer: NotificationBuffer::new(batch_size),
            cli_metrics: None,
            file_metrics: None,
            api_metrics: None,
        }
    }

    /// Start the system at `now_nanos`: a running system is left as it is; otherwise it
    /// runs, with a fresh limiter for every configured channel that has a rate limit. The
    /// result says whether the batch processor is to be started.
    pub fn start_at(&mut self, now_nanos: u64) -> (start_batches: bool)
        requires
            old(self).wf(),
        ensures
            final(self).wf(),
            final(self).is_running(),
            final(self).settings() == old(self).settings(),
            forall|k: Seq<char>| #[trigger] final(self).channel_metrics(k) == old(self).channel_metrics(k),
            final(self).pending() == old(self).pending(),
            final(self).total_sent() == old(self).total_sent(),
            final(self).sent_by_type() == old(self).sent_by_type(),
            old(self).is_running() ==> !start_batches && final(self).limiters() == old(self).limiters(),
            !old(self).is_running() ==> start_batches == old(self).settings().batch_delivery
                && final(self).limiters() == old(self).limiters() + limiters_for(old(self).settings().channel_configs@, now_nanos),
    {
        if self.running {
            return false;
        }
        self.running = true;
        let ghost base = self.rate_limiters@;
        let mut i: usize = 0;
        while i < self.config.channel_configs.len()
            invariant
                i <= self.config.channel_configs@.len(),
                self.config == old(self).config,
                self.running,
                self.metrics == old(self).metrics,
                self.buffer == old(self).buffer,
                self.cli_metrics == old(self).cli_metrics,
                self.file_metrics == old(self).file_metrics,
                self.api_metrics == old(self).api_metrics,
                base == old(self).rate_limiters@,
                self.rate_limiters@ == base + limiters_for(self.config.channel_configs@.take(i as int), now_nanos),
            decreases self.config.channel_configs.len() - i,
        {
            assert(self.config.channel_configs@.take(i + 1).drop_last() =~= self.config.channel_configs@.take(i as int));
            match self.config.channel_configs[i].1.rate_limit_per_minute {
                Some(r) => {
                    let name = self.config.channel_configs[i].0.clone();
                    self.rate_limiters.push((name, ChannelRateLimiter::new_at(r, now_nanos)));
                    assert(self.rate_limiters@ =~= base + limiters_for(self.config.channel_configs@.take(i + 1), now_nanos));
                },
                None => {
                    assert(self.rate_limiters@ =~= base + limiters_for(self.config.channel_configs@.take(i + 1), now_nanos));
                },
            }
            i = i + 1;
        }
        assert(self.config.channel_configs@.take(self.config.channel_configs@.len() as int) =~= self.config.channel_configs@);
        self.config.batch_delivery
    }

    /// Stop the system; in batch mode everything still buffered is handed back for
    /// delivery.
    pub fn stop(&mut self) -> (r: Result<Vec<Notification>, NotificationSystemError>)
        requires
            old(self).wf(),
        ensures
            final(self).wf(),
            !final(self).is_running(),
            final(self).settings() == old(self).settings(),
            forall|k: Seq<char>| #[trigger] final(self).channel_metrics(k) == old(self).channel_metrics(k),
            final(self).limiters() == old(self).limiters(),
            final(self).total_sent() == old(self).total_sent(),
            old(self).settings().batch_delivery ==> (r matches Ok(v) && v@ == old(self).pending())
                && final(self).pending() == Seq::<Notification>::empty(),
            !old(self).settings().batch_delivery ==> (r matches Ok(v) && v@.len() == 0)
                && final(self).pending() == old(self).pending(),
    {
        self.running = false;
        if self.config.batch_delivery {
            Ok(self.buffer.drain())
        } else {
            Ok(Vec::new())
        }
    }

    /// Whether the system is running.
    pub fn running(&self) -> (r: bool)
        ensures
            r == self.is_running(),
    {
        self.running
    }

    /// Hand back everything the batch buffer holds, oldest first, leaving it empty; the
    /// periodic flush of batch mode delivers these.
    pub fn flush_buffer(&mut self) -> (v: Vec<Notification>)
        requires
            old(self).wf(),
        ensures
            final(self).wf(),
            v@ == old(self).pending(),
            final(self).pending() == Seq::<Notification>::empty(),
            final(self).is_running() == old(self).is_running(),
            final(self).settings() == old(self).settings(),
            forall|k: Seq<char>| #[trigger] final(self).channel_metrics(k) == old(self).channel_metrics(k),
            final(self).limiters() == old(self).limiters(),
            final(self).total_sent() == old(self).total_sent(),
            final(self).sent_by_type() == old(self).sent_by_type(),
    {
        self.buffer.drain()
    }

    /// Send a notification at `now_nanos`: refused when the system is not running;
    /// counted when metrics are enabled; then buffered in batch mode, where a full buffer
    /// is handed back for delivery, or handed back alone for immediate delivery.
    pub fn send_at(&mut self, notification: Notification, now_nanos: i64) -> (r: Result<Vec<Notification>, NotificationSystemError>)
        requires
            old(self).wf(),
            old(self).total_sent() < u64::MAX,
            old(self).sent_by_type().contains_key(type_label(notification.notification_type))
                ==> old(self).sent_by_type()[type_label(notification.notification_type)] < u64::MAX,
        ensures
            final(self).wf(),
            final(self).settings() == old(self).settings(),
            forall|k: Seq<char>| #[trigger] final(self).channel_metrics(k) == old(self).channel_metrics(k),
            final(self).is_running() == old(self).is_running(),
            final(self).limiters() == old(self).limiters(),
            !old(self).is_running() ==> r == Err::<Vec<Notification>, NotificationSystemError>(NotificationSystemError::NotInitialized)
                && final(self).pending() == old(self).pending() && final(self).total_sent() == old(self).total_sent()
                && final(self).sent_by_type() == old(self).sent_by_type(),
            old(self).is_running() && old(self).settings().enable_metrics ==> final(self).total_sent() == old(self).total_sent() + 1
                && final(self).sent_by_type() == old(self).sent_by_type().insert(
                    type_label(notification.notification_type),
                    if old(self).sent_by_type().contains_key(type_label(notification.notification_type)) {
                        (old(self).sent_by_type()[type_label(notification.notification_type)] + 1) as u64
                    } else {
                        1
                    },
                ),
            old(self).is_running() && !old(self).settings().enable_metrics ==> final(self).total_sent() == old(self).total_sent()
                && final(self).sent_by_type() == old(self).sent_by_type(),
            old(self).is_running() && !old(self).settings().batch_delivery ==> (r matches Ok(v) && v@ == seq![notification])
                && final(self).pending() == old(self).pending(),
            old(self).is_running() && old(self).settings().batch_delivery ==> (r matches Ok(v) && if old(self).pending().len() + 1
                >= old(self).settings().batch_size {
                v@ == old(self).pending().push(notification) && final(self).pending() == Seq::<Notification>::empty()
            } else {
                v@ == Seq::<Notification>::empty() && final(self).pending() == old(self).pending().push(notification)
            }),
    {
        if !self.running {
            return Err(NotificationSystemError::NotInitialized);
        }
        if self.config.enable_metrics {
            self.metrics.record_at(notification.notification_type, now_nanos);
        }
        route_notification(true, self.config.batch_delivery, &mut self.buffer, notification)
    }

    /// Position of the limiter of the channel key.
    fn find_limiter(&self, key: &str) -> (r: Option<usize>)
        ensures
            match r {
                Some(j) => j == limiter_index(self.rate_limiters@, key@) && j < self.rate_limiters@.len(),
                None => limiter_index(self.rate_limiters@, key@) == -1,
            },
    {
        let mut i: usize = 0;
        while i < self.rate_limiters.len()
            invariant
                i <= self.rate_limiters@.len(),
                limiter_index(self.rate_limiters@.take(i as int), key@) == -1,
            decreases self.rate_limiters.len() - i,
        {
            assert(self.rate_limiters@.take(i + 1).drop_last() =~= self.rate_limiters@.take(i as int));
            if str_equal(self.rate_limiters[i].0.as_str(), key) {
                proof { lemma_limiter_index_prefix(self.rate_limiters@, i as int + 1, key@); }
                return Some(i);
            }
            i = i + 1;
        }
        assert(self.rate_limiters@.take(self.rate_limiters@.len() as int) =~= self.rate_limiters@);
        None
    }

    /// Ask the rate limiter of a channel whether a delivery at `now_nanos` may go out;
    /// channels without a limiter are never limited. A refused delivery gives the
    /// rate-limit error with the window's count and the limit.
    pub fn check_rate_limit_at(&mut self, channel: &NotificationChannel, now_nanos: u64) -> (r: Result<(), NotificationSystemError>)
        ensures
            final(self).settings() == old(self).settings(),
            forall|k: Seq<char>| #[trigger] final(self).channel_metrics(k) == old(self).channel_metrics(k),
            final(self).is_running() == old(self).is_running(),
            final(self).pending() == old(self).pending(),
            final(self).total_sent() == old(self).total_sent(),
            final(self).sent_by_type() == old(self).sent_by_type(),
            final(self).wf() == old(self).wf(),
            ({
                let key = channel_key_of(*channel);
                let j = limiter_index(old(self).limiters(), key);
                if j < 0 {
                    r is Ok && final(self).limiters() == old(self).limiters()
                } else {
                    let l = old(self).limiters()[j].1;
                    let w = limiter_window(l, now_nanos);
                    if w.count < l.limit {
                        r is Ok && final(self).limiters() == old(self).limiters().update(
                            j,
                            (old(self).limiters()[j].0, ChannelRateLimiter { count: (w.count + 1) as u32, ..w }),
                        )
                    } else {
                        r == Err::<(), NotificationSystemError>(NotificationSystemError::RateLimitExceeded {
                            channel: r->Err_0->RateLimitExceeded_channel,
                            current: w.count,
                            limit: w.limit,
                        }) && r->Err_0->RateLimitExceeded_channel@ == key && final(self).limiters()
                            == old(self).limiters().update(j, (old(self).limiters()[j].0, w))
                    }
                }
            }),
    {
        let key = channel.channel_key();
        match self.find_limiter(key.as_str()) {
            None => Ok(()),
            Some(j) => {
                let name = self.rate_limiters[j].0.clone();
                let mut l = self.rate_limiters[j].1;
                let ok = l.can_send_at(now_nanos);
                self.rate_limiters.set(j, (name, l));
                if ok {
                    Ok(())
                } else {
                    Err(rate_limit_error(key, &l))
                }
            },
        }
    }

    /// The configuration.
    pub fn config(&self) -> (c: &NotificationSystemConfig)
        ensures
            *c == self.settings(),
    {
        &self.config
    }

    /// The counters.
    pub fn get_metrics(&self) -> (m: &NotificationMetrics)
        ensures
            m.total_notifications == self.total_sent(),
            m.notifications_by_type.counts() == self.sent_by_type(),
    {
        &self.metrics
    }

    /// A notification of the given type on the default channels, with a fresh identifier
    /// and the current time.
    pub fn notification_of(&self, notification_type: NotificationType, title: String, message: String) -> (n: Notification)
        ensures
            n.notification_type == notification_type,
            n.title == title,
            n.message == message,
            n.channels@ == self.settings().default_channels@,
    {
        let channels = clone_channels(&self.config.default_channels);
        Notification::new(notification_type, title, message, channels)
    }
}

/// A copy of a list of channels.
pub fn clone_channels(v: &Vec<NotificationChannel>) -> (r: Vec<NotificationChannel>)
    ensures
        r@ == v@,
{
    let mut r: Vec<NotificationChannel> = Vec::new();
    let mut i: usize = 0;
    while i < v.len()
        invariant
            i <= v@.len(),
            r@ == v@.take(i as int),
        decreases v.len() - i,
    {
        let c = match &v[i] {
            NotificationChannel::CLI => NotificationChannel::CLI,
            NotificationChannel::File { path } => NotificationChannel::File { path: path.clone() },
            NotificationChannel::API { endpoint } => NotificationChannel::API { endpoint: endpoint.clone() },
        };
        r.push(c);
        assert(r@ =~= v@.take(i + 1));
        i = i + 1;
    }
    assert(v@.take(v@.len() as int) =~= v@);
    r
}

} // verus!
