//! Decision logic of the mock notification channels used to exercise the notification
//! system: the token-bucket limiter of rate-limited mocks and scripted success
//! patterns.

use vstd::prelude::*;
use crate::notification_system::NotificationSystemError;
use crate::text::{append_decimal, decimal};

verus! {

/// Errors that can occur in the testing harness.
#[derive(Debug, Clone, PartialEq, Eq)]
pub enum TestHarnessError {
    MockChannelError(String),
    TestScenarioFailed(String),
    PerformanceTestFailed { expected: String, actual: String },
    StressTestFailed { reason: String },
    IntegrationTestFailed { component: String, reason: String },
    MockConfigurationError(String),
}

/// Token bucket for rate-limited mock channels: up to `max_per_second` tokens, one
/// spent per delivery.
#[derive(Debug, Clone, Copy, PartialEq, Eq, Structural)]
pub struct MockRateLimiter {
    pub max_per_second: u32,
    pub tokens: u32,
    /// When tokens were last added, nanoseconds on the caller's clock
    pub last_refill_nanos: u64,
}

/// The bucket after `tokens_to_add` tokens accrued by `now`: when any accrued, the
/// tokens grow up to the maximum and the refill time moves to `now`.
pub open spec fn refilled(l: MockRateLimiter, tokens_to_add: u32, now: u64) -> MockRateLimiter {
    if tokens_to_add > 0 {
        MockRateLimiter {
            tokens: if l.tokens + tokens_to_add < l.max_per_second { (l.tokens + tokens_to_add) as u32 } else { l.max_per_second },
            last_refill_nanos: now,
            ..l
        }
    } else {
        l
    }
}

impl MockRateLimiter {
    /// A full bucket, last refilled at `now_nanos`.
    pub fn new_at(max_per_second: u32, now_nanos: u64) -> (l: MockRateLimiter)
        ensures
            l == (MockRateLimiter { max_per_second, tokens: max_per_second, last_refill_nanos: now_nanos }),
    {
        MockRateLimiter { max_per_second, tokens: max_per_second, last_refill_nanos: now_nanos }
    }

    /// Add the tokens accrued since the last refill (the elapsed seconds times the rate,
    /// rounded down, as the caller measured them at `now_nanos`), never beyond the
    /// maximum.
    pub fn refill_tokens(&mut self, tokens_to_add: u32, now_nanos: u64)
        requires
            old(self).tokens + tokens_to_add <= u32::MAX,
        ensures
            *final(self) == refilled(*old(self), tokens_to_add, now_nanos),
    {
        if tokens_to_add > 0 {
            let sum = self.tokens + tokens_to_add;
            self.tokens = if sum < self.max_per_second { sum } else { self.max_per_second };
            self.last_refill_nanos = now_nanos;
        }
    }

    /// Refill, then spend a token if one is left.
    pub fn can_proceed(&mut self, tokens_to_add: u32, now_nanos: u64) -> (r: bool)
        requires
            old(self).tokens + tokens_to_add <= u32::MAX,
        ensures
            r == (refilled(*old(self), tokens_to_add, now_nanos).tokens > 0),
            *final(self) == (if r {
                MockRateLimiter { tokens: (refilled(*old(self), tokens_to_add, now_nanos).tokens - 1) as u32, ..refilled(*old(self), tokens_to_add, now_nanos) }
            } else {
                refilled(*old(self), tokens_to_add, now_nanos)
            }),
    {
        self.refill_tokens(tokens_to_add, now_nanos);
        if self.tokens > 0 {
            self.tokens = self.tokens - 1;
            true
        } else {
            false
        }
    }
}

/// The bucket never holds more than its maximum, and with no time passing it admits at
/// most as many deliveries as it holds tokens.
pub proof fn lemma_mock_bucket_bounded(l: MockRateLimiter, add: u32, now: u64)
    requires
        l.tokens <= l.max_per_second,
        l.tokens + add <= u32::MAX,
    ensures
        refilled(l, add, now).tokens <= l.max_per_second,
        refilled(l, 0, now) == l,
{
}

/// Outcome of a scripted delivery: the entry of the pattern at the call count, taken
/// cyclically, and the call count moved on by one.
pub fn custom_pattern_step(pattern: &Vec<bool>, index: usize) -> (r: (bool, usize, usize))
    requires
        pattern.len() > 0,
        index < usize::MAX,
    ensures
        r.1 == index % pattern.len(),
        r.0 == pattern@[(index % pattern.len()) as int],
        r.2 == index + 1,
{
    let i = index % pattern.len();
    (pattern[i], i, index + 1)
}

/// The failure a scripted delivery reports at pattern position `index`.
pub fn custom_pattern_failure(channel_id: String, index: usize) -> (e: NotificationSystemError)
    ensures
        e matches NotificationSystemError::ChannelDeliveryFailed { channel, message, retry_count }
            && channel == channel_id && message@ == "Custom pattern failure at index "@ + decimal(index as nat)
            && retry_count == 0,
{
    let mut message = String::new();
    message.append("Custom pattern failure at index ");
    append_decimal(&mut message, index as u64);
    NotificationSystemError::ChannelDeliveryFailed { channel: channel_id, message, retry_count: 0 }
}

/// Delivery counts of a log of outcomes: total, successes and failures.
pub fn delivery_counts(successes: &Vec<bool>) -> (r: (usize, usize, usize))
    ensures
        r.0 == successes@.len(),
        r.1 == successes@.filter(|b: bool| b).len(),
        r.2 == r.0 - r.1,
{
    let mut ok: usize = 0;
    let mut i: usize = 0;
    while i < successes.len()
        invariant
            i <= successes@.len(),
            ok == successes@.take(i as int).filter(|b: bool| b).len(),
            ok <= i,
        decreases successes.len() - i,
    {
        proof {
            assert(successes@.take(i + 1).drop_last() =~= successes@.take(i as int));
            reveal_with_fuel(Seq::filter, 1);
        }
        if successes[i] {
            ok = ok + 1;
        }
        i = i + 1;
    }
    assert(successes@.take(successes@.len() as int) =~= successes@);
    (successes.len(), ok, successes.len() - ok)
}


/// The sum of a sequence of durations.
pub open spec fn total_of(s: Seq<u64>) -> int
    decreases s.len(),
{
    if s.len() == 0 { 0 } else { total_of(s.drop_last()) + s.last() }
}

/// The largest duration of a non-empty sequence.
pub open spec fn largest_of(s: Seq<u64>) -> u64
    decreases s.len(),
{
    if s.len() <= 1 {
        s[0]
    } else {
        let m = largest_of(s.drop_last());
        if s.last() > m { s.last() } else { m }
    }
}

/// The smallest duration of a non-empty sequence.
pub open spec fn smallest_of(s: Seq<u64>) -> u64
    decreases s.len(),
{
    if s.len() <= 1 {
        s[0]
    } else {
        let m = smallest_of(s.drop_last());
        if s.last() < m { s.last() } else { m }
    }
}

proof fn lemma_total_bounded(s: Seq<u64>)
    ensures
        0 <= total_of(s) <= s.len() * u64::MAX,
    decreases s.len(),
{
    if s.len() > 0 {
        lemma_total_bounded(s.drop_last());
    }
}

/// Latency of a scenario in whole milliseconds, from send latencies in nanoseconds:
/// the average (total divided by the count, rounded down), the largest and the
/// smallest; all zero when nothing was sent.
pub fn latency_summary_ms(latencies_nanos: &Vec<u64>) -> (r: (u64, u64, u64))
    requires
        latencies_nanos@.len() <= u32::MAX,
    ensures
        latencies_nanos@.len() == 0 ==> r == (0u64, 0u64, 0u64),
        latencies_nanos@.len() > 0 ==> r == (
            ((total_of(latencies_nanos@) / (latencies_nanos@.len() as int)) / 1_000_000) as u64,
            (largest_of(latencies_nanos@) / 1_000_000) as u64,
            (smallest_of(latencies_nanos@) / 1_000_000) as u64,
        ),
{
    let n = latencies_nanos.len();
    if n == 0 {
        return (0, 0, 0);
    }
    let mut total: u128 = 0;
    let mut largest: u64 = latencies_nanos[0];
    let mut smallest: u64 = latencies_nanos[0];
    let mut i: usize = 0;
    while i < n
        invariant
            n == latencies_nanos@.len(),
            0 < n <= u32::MAX,
            i <= n,
            total == total_of(latencies_nanos@.take(i as int)),
            total <= i * u64::MAX,
            i > 0 ==> largest == largest_of(latencies_nanos@.take(i as int)),
            i > 0 ==> smallest == smallest_of(latencies_nanos@.take(i as int)),
            i == 0 ==> largest == latencies_nanos@[0] && smallest == latencies_nanos@[0],
        decreases n - i,
    {
        let x = latencies_nanos[i];
        assert(latencies_nanos@.take(i + 1).drop_last() =~= latencies_nanos@.take(i as int));
        assert(latencies_nanos@.take(i + 1).last() == x);
        assert(total + x <= (i + 1) * u64::MAX) by (nonlinear_arith)
            requires
                total <= i * u64::MAX,
                x <= u64::MAX,
        ;
        total = total + x as u128;
        if i > 0 {
            if x > largest {
                largest = x;
            }
            if x < smallest {
                smallest = x;
            }
        }
        i = i + 1;
    }
    assert(latencies_nanos@.take(n as int) =~= latencies_nanos@);
    let average: u128 = total / (n as u128);
    assert(average <= u64::MAX) by (nonlinear_arith)
        requires
            total <= n * u64::MAX,
            n > 0,
            average == total / (n as u128),
    ;
    ((average / 1_000_000) as u64, largest / 1_000_000, smallest / 1_000_000)
}

/// The failure noted when a scenario's largest latency exceeds what it expects.
pub fn latency_failure(max_latency_ms: u64, expected_max_latency_ms: u64) -> (r: Option<String>)
    ensures
        max_latency_ms > expected_max_latency_ms ==> (r matches Some(m) && m@ == "Max latency "@ + decimal(
            max_latency_ms as nat,
        ) + "ms above expected "@ + decimal(expected_max_latency_ms as nat) + "ms"@),
        max_latency_ms <= expected_max_latency_ms ==> r is None,
{
    if max_latency_ms > expected_max_latency_ms {
        let mut m = String::new();
        m.append("Max latency ");
        append_decimal(&mut m, max_latency_ms);
        m.append("ms above expected ");
        append_decimal(&mut m, expected_max_latency_ms);
        m.append("ms");
        Some(m)
    } else {
        None
    }
}

/// Title and message of the `i`-th notification a scenario sends one after another.
pub fn sequential_notification_text(scenario_name: &str, i: u64) -> (r: (String, String))
    ensures
        r.0@ == "Test Notification "@ + decimal(i as nat),
        r.1@ == "Scenario: "@ + scenario_name@ + " - Message "@ + decimal(i as nat),
{
    let mut title = String::new();
    title.append("Test Notification ");
    append_decimal(&mut title, i);
    let mut message = String::new();
    message.append("Scenario: ");
    message.append(scenario_name);
    message.append(" - Message ");
    append_decimal(&mut message, i);
    (title, message)
}

/// Title and message of the `i`-th notification of concurrent sender `sender`.
pub fn concurrent_notification_text(scenario_name: &str, sender: u64, i: u64) -> (r: (String, String))
    ensures
        r.0@ == "Concurrent Test "@ + decimal(sender as nat) + "-"@ + decimal(i as nat),
        r.1@ == "Scenario: "@ + scenario_name@ + " - Sender "@ + decimal(sender as nat) + " Message "@ + decimal(i as nat),
{
    let mut title = String::new();
    title.append("Concurrent Test ");
    append_decimal(&mut title, sender);
    title.append("-");
    append_decimal(&mut title, i);
    let mut message = String::new();
    message.append("Scenario: ");
    message.append(scenario_name);
    message.append(" - Sender ");
    append_decimal(&mut message, sender);
    message.append(" Message ");
    append_decimal(&mut message, i);
    (title, message)
}

} // verus!
