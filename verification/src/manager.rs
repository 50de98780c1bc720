//! The proactive research manager's own state: whether it runs, since when, the
//! settings it can change, and its bounded event history.

use vstd::prelude::*;
use crate::text::{append_decimal, decimal, parse_bool, parse_unsigned, str_equal, unsigned_value};

verus! {

/// Errors that can occur during proactive manager operations.
#[derive(Debug, Clone, PartialEq, Eq)]
pub enum ProactiveManagerError {
    NotInitialized,
    AlreadyRunning,
    NotRunning,
    Configuration(String),
    ComponentInitialization { component: String, error: String },
    StatePersistence(String),
    Serialization(String),
    Timeout { operation: String },
    InvalidConfigValue { key: String, value: String },
}

/// Types of proactive research events.
#[derive(Debug, Clone, Copy, PartialEq, Eq, Structural)]
pub enum ProactiveEventType {
    SystemStarted,
    SystemStopped,
    GapDetected,
    TaskCreated,
    TaskCompleted,
    TaskFailed,
    NotificationSent,
    ConfigurationChanged,
    Error,
}

/// Event in the proactive research system, stamped in nanoseconds since the Unix epoch.
#[derive(Debug, Clone, PartialEq, Eq)]
pub struct ProactiveEvent {
    pub timestamp_nanos: i64,
    pub event_type: ProactiveEventType,
    pub description: String,
    pub task_id: Option<String>,
    pub gap_id: Option<String>,
}

impl ProactiveEvent {
    /// A field-by-field copy.
    pub fn duplicate(&self) -> (r: ProactiveEvent)
        ensures
            r == *self,
    {
        ProactiveEvent {
            timestamp_nanos: self.timestamp_nanos,
            event_type: self.event_type,
            description: self.description.clone(),
            task_id: match &self.task_id {
                Some(t) => Some(t.clone()),
                None => None,
            },
            gap_id: match &self.gap_id {
                Some(g) => Some(g.clone()),
                None => None,
            },
        }
    }
}

/// Configuration summary for status display.
#[derive(Debug, Clone, PartialEq, Eq)]
pub struct ConfigSummary {
    pub gap_interval_minutes: u64,
    pub max_concurrent_tasks: usize,
    pub file_watch_debounce_seconds: u64,
    pub auto_persist_enabled: bool,
    pub notification_channels: Vec<String>,
}

/// The settings of the manager that can be changed at run time.
#[derive(Debug, Clone, Copy, PartialEq, Eq, Structural)]
pub struct ManagerSettings {
    pub max_concurrent_tasks: usize,
    pub auto_persist: bool,
}

/// Current status of the proactive research system. Times are nanoseconds since the
/// Unix epoch; the uptime is in nanoseconds.
#[derive(Debug, Clone, PartialEq, Eq)]
pub struct ProactiveStatus {
    pub is_running: bool,
    pub started_at_nanos: Option<i64>,
    pub uptime_nanos: Option<u64>,
    pub active_tasks: usize,
    pub completed_tasks: usize,
    pub failed_tasks: usize,
    pub detected_gaps: usize,
    pub last_gap_analysis_nanos: Option<i64>,
    pub recent_activity: Vec<ProactiveEvent>,
    pub config_summary: ConfigSummary,
}

/// The most events the history keeps.
pub const EVENT_HISTORY_LIMIT: usize = 1000;

/// The history after logging `e`: appended, and the oldest dropped past the limit.
pub open spec fn history_after(h: Seq<ProactiveEvent>, e: ProactiveEvent) -> Seq<ProactiveEvent> {
    if h.push(e).len() > EVENT_HISTORY_LIMIT {
        h.push(e).drop_first()
    } else {
        h.push(e)
    }
}

/// The most recent events, newest first, at most ten.
pub open spec fn latest_events(h: Seq<ProactiveEvent>) -> Seq<ProactiveEvent> {
    let n: int = if h.len() < 10 { h.len() as int } else { 10 };
    Seq::new(n as nat, |i: int| h[h.len() - 1 - i])
}

/// Time from `start` to `now`, zero when the clock went backwards.
pub open spec fn uptime_from(start: i64, now: i64) -> u64 {
    if now >= start { (now - start) as u64 } else { 0 }
}

/// A setting accepted by `set_config`, and the settings after it: `gap_interval` takes
/// 1 to 1440 minutes and `debounce` 0 to 300 seconds, both checked only; `max_tasks`
/// takes 1 to 50 tasks; `auto_persist` takes `true` or `false`.
pub open spec fn settings_after(s: ManagerSettings, key: Seq<char>, value: Seq<char>) -> Option<ManagerSettings> {
    if key == "gap_interval"@ {
        match unsigned_value(value, u64::MAX as nat) {
            Some(m) => if 1 <= m <= 1440 { Some(s) } else { None },
            None => None,
        }
    } else if key == "max_tasks"@ {
        match unsigned_value(value, usize::MAX as nat) {
            Some(t) => if 1 <= t <= 50 { Some(ManagerSettings { max_concurrent_tasks: t as usize, ..s }) } else { None },
            None => None,
        }
    } else if key == "debounce"@ {
        match unsigned_value(value, u64::MAX as nat) {
            Some(d) => if d <= 300 { Some(s) } else { None },
            None => None,
        }
    } else if key == "auto_persist"@ {
        if value == "true"@ {
            Some(ManagerSettings { auto_persist: true, ..s })
        } else if value == "false"@ {
            Some(ManagerSettings { auto_persist: false, ..s })
        } else {
            None
        }
    } else {
        None
    }
}

/// The text of a boolean.
pub open spec fn bool_text(b: bool) -> Seq<char> {
    if b { "true"@ } else { "false"@ }
}

/// The value `get_config` reports for a key.
pub open spec fn config_value(s: ManagerSettings, key: Seq<char>) -> Option<Seq<char>> {
    if key == "gap_interval"@ {
        Some("30"@)
    } else if key == "max_tasks"@ {
        Some(decimal(s.max_concurrent_tasks as nat))
    } else if key == "debounce"@ {
        Some("5"@)
    } else if key == "auto_persist"@ {
        Some(bool_text(s.auto_persist))
    } else {
        None
    }
}

/// The manager's state: running or not, since when, its settings and its event history.
#[derive(Debug)]
pub struct ProactiveManager {
    settings: ManagerSettings,
    is_running: bool,
    started_at_nanos: Option<i64>,
    event_history: Vec<ProactiveEvent>,
}

impl ProactiveManager {
    pub closed spec fn current(&self) -> ManagerSettings {
        self.settings
    }

    pub closed spec fn running(&self) -> bool {
        self.is_running
    }

    pub closed spec fn started_at(&self) -> Option<i64> {
        self.started_at_nanos
    }

    pub closed spec fn history(&self) -> Seq<ProactiveEvent> {
        self.event_history@
    }

    /// A stopped manager with the given settings and no events.
    pub fn new(settings: ManagerSettings) -> (m: ProactiveManager)
        ensures
            m.current() == settings,
            !m.running(),
            m.started_at() is None,
            m.history() == Seq::<ProactiveEvent>::empty(),
    {
        ProactiveManager { settings, is_running: false, started_at_nanos: None, event_history: Vec::new() }
    }

    /// The current settings.
    pub fn settings(&self) -> (s: ManagerSettings)
        ensures
            s == self.current(),
    {
        self.settings
    }

    /// The number of events kept.
    pub fn history_len(&self) -> (n: usize)
        ensures
            n == self.history().len(),
    {
        self.event_history.len()
    }

    /// Replace the settings with ones loaded from storage; nothing is logged.
    pub fn load_config(&mut self, settings: ManagerSettings)
        ensures
            final(self).current() == settings,
            final(self).running() == old(self).running(),
            final(self).started_at() == old(self).started_at(),
            final(self).history() == old(self).history(),
    {
        self.settings = settings;
    }

    /// Log an event at `now_nanos`, keeping the most recent `EVENT_HISTORY_LIMIT`.
    pub fn log_event_at(
        &mut self,
        event_type: ProactiveEventType,
        description: String,
        task_id: Option<String>,
        gap_id: Option<String>,
        now_nanos: i64,
    )
        requires
            old(self).history().len() <= EVENT_HISTORY_LIMIT,
        ensures
            final(self).history() == history_after(
                old(self).history(),
                ProactiveEvent { timestamp_nanos: now_nanos, event_type, description, task_id, gap_id },
            ),
            final(self).history().len() <= EVENT_HISTORY_LIMIT,
            final(self).current() == old(self).current(),
            final(self).running() == old(self).running(),
            final(self).started_at() == old(self).started_at(),
    {
        let event = ProactiveEvent { timestamp_nanos: now_nanos, event_type, description, task_id, gap_id };
        self.event_history.push(event);
        if self.event_history.len() > EVENT_HISTORY_LIMIT {
            self.event_history.remove(0);
        }
    }

    /// Refuse to start a manager that is already running.
    pub fn check_can_start(&self) -> (r: Result<(), ProactiveManagerError>)
        ensures
            r == (if self.running() {
                Err(ProactiveManagerError::AlreadyRunning)
            } else {
                Ok(())
            }),
    {
        if self.is_running {
            Err(ProactiveManagerError::AlreadyRunning)
        } else {
            Ok(())
        }
    }

    /// Record that the system started at `now_nanos`.
    pub fn mark_started_at(&mut self, now_nanos: i64)
        requires
            old(self).history().len() <= EVENT_HISTORY_LIMIT,
        ensures
            final(self).running(),
            final(self).started_at() == Some(now_nanos),
            final(self).current() == old(self).current(),
            final(self).history().len() <= EVENT_HISTORY_LIMIT,
            final(self).history() == old(self).history().push(final(self).history().last())
                || final(self).history() == old(self).history().push(final(self).history().last()).drop_first(),
            final(self).history().last().event_type == ProactiveEventType::SystemStarted,
            final(self).history().last().description@ == "Proactive research system started"@,
            final(self).history().last().timestamp_nanos == now_nanos,
    {
        self.is_running = true;
        self.started_at_nanos = Some(now_nanos);
        self.log_event_at(
            ProactiveEventType::SystemStarted,
            "Proactive research system started".to_owned(),
            None,
            None,
            now_nanos,
        );
    }

    /// Refuse to stop a manager that is not running.
    pub fn check_can_stop(&self) -> (r: Result<(), ProactiveManagerError>)
        ensures
            r == (if self.running() {
                Ok(())
            } else {
                Err(ProactiveManagerError::NotRunning)
            }),
    {
        if self.is_running {
            Ok(())
        } else {
            Err(ProactiveManagerError::NotRunning)
        }
    }

    /// Record that the system stopped at `now_nanos`.
    pub fn mark_stopped_at(&mut self, now_nanos: i64)
        requires
            old(self).history().len() <= EVENT_HISTORY_LIMIT,
        ensures
            !final(self).running(),
            final(self).started_at() is None,
            final(self).current() == old(self).current(),
            final(self).history().len() <= EVENT_HISTORY_LIMIT,
            final(self).history().last().event_type == ProactiveEventType::SystemStopped,
            final(self).history().last().description@ == "Proactive research system stopped"@,
            final(self).history().last().timestamp_nanos == now_nanos,
    {
        self.is_running = false;
        self.started_at_nanos = None;
        self.log_event_at(
            ProactiveEventType::SystemStopped,
            "Proactive research system stopped".to_owned(),
            None,
            None,
            now_nanos,
        );
    }

    /// The most recent events, newest first, at most ten.
    fn latest_activity(&self) -> (r: Vec<ProactiveEvent>)
        ensures
            r@ == latest_events(self.history()),
    {
        let n = self.event_history.len();
        let count: usize = if n < 10 { n } else { 10 };
        let mut r: Vec<ProactiveEvent> = Vec::new();
        let mut i: usize = 0;
        while i < count
            invariant
                n == self.event_history@.len(),
                count == (if n < 10 { n } else { 10 }),
                i <= count,
                r@.len() == i,
                forall|k: int| 0 <= k < i ==> #[trigger] r@[k] == self.event_history@[n - 1 - k],
            decreases count - i,
        {
            r.push(self.event_history[n - 1 - i].duplicate());
            i = i + 1;
        }
        assert(r@ =~= latest_events(self.history()));
        r
    }

    /// The events stamped at or after `cutoff_nanos`, oldest first.
    fn activity_since(&self, cutoff_nanos: i64) -> (r: Vec<ProactiveEvent>)
        ensures
            r@ == self.history().filter(|e: ProactiveEvent| e.timestamp_nanos >= cutoff_nanos),
    {
        let ghost pred = |e: ProactiveEvent| e.timestamp_nanos >= cutoff_nanos;
        let mut r: Vec<ProactiveEvent> = Vec::new();
        let mut i: usize = 0;
        while i < self.event_history.len()
            invariant
                i <= self.event_history@.len(),
                pred == (|e: ProactiveEvent| e.timestamp_nanos >= cutoff_nanos),
                r@ == self.event_history@.take(i as int).filter(pred),
            decreases self.event_history.len() - i,
        {
            proof { self.event_history@.take(i as int).lemma_filter_push(self.event_history@[i as int], pred); }
            assert(self.event_history@.take(i + 1) =~= self.event_history@.take(i as int).push(self.event_history@[i as int]));
            if self.event_history[i].timestamp_nanos >= cutoff_nanos {
                r.push(self.event_history[i].duplicate());
            }
            i = i + 1;
        }
        assert(self.event_history@.take(self.event_history@.len() as int) =~= self.event_history@);
        r
    }

    /// The status at `now_nanos`: running state, uptime, and the recent activity, which
    /// is every event since `recent_cutoff_nanos` when one is given, else the ten most
    /// recent events, newest first. Task and gap counts are not tracked and read zero.
    pub fn get_status_at(&self, recent_cutoff_nanos: Option<i64>, now_nanos: i64) -> (r: Result<ProactiveStatus, ProactiveManagerError>)
        ensures
            r matches Ok(st) && {
                &&& st.is_running == self.running()
                &&& st.started_at_nanos == self.started_at()
                &&& st.uptime_nanos == match self.started_at() {
                    Some(start) => Some(uptime_from(start, now_nanos)),
                    None => None,
                }
                &&& st.active_tasks == 0 && st.completed_tasks == 0 && st.failed_tasks == 0
                &&& st.detected_gaps == 0 && st.last_gap_analysis_nanos is None
                &&& st.recent_activity@ == match recent_cutoff_nanos {
                    Some(c) => self.history().filter(|e: ProactiveEvent| e.timestamp_nanos >= c),
                    None => latest_events(self.history()),
                }
                &&& st.config_summary.gap_interval_minutes == 30
                &&& st.config_summary.max_concurrent_tasks == self.current().max_concurrent_tasks
                &&& st.config_summary.file_watch_debounce_seconds == 5
                &&& st.config_summary.auto_persist_enabled == self.current().auto_persist
                &&& st.config_summary.notification_channels@.len() == 1
                &&& st.config_summary.notification_channels@[0]@ == "console"@
            },
    {
        let uptime_nanos = match self.started_at_nanos {
            Some(start) => Some(if now_nanos >= start { (now_nanos as i128 - start as i128) as u64 } else { 0 }),
            None => None,
        };
        let recent_activity = match recent_cutoff_nanos {
            Some(c) => self.activity_since(c),
            None => self.latest_activity(),
        };
        let mut channels: Vec<String> = Vec::new();
        channels.push("console".to_owned());
        Ok(ProactiveStatus {
            is_running: self.is_running,
            started_at_nanos: self.started_at_nanos,
            uptime_nanos,
            active_tasks: 0,
            completed_tasks: 0,
            failed_tasks: 0,
            detected_gaps: 0,
            last_gap_analysis_nanos: None,
            recent_activity,
            config_summary: ConfigSummary {
                gap_interval_minutes: 30,
                max_concurrent_tasks: self.settings.max_concurrent_tasks,
                file_watch_debounce_seconds: 5,
                auto_persist_enabled: self.settings.auto_persist,
                notification_channels: channels,
            },
        })
    }

    /// Change a setting at `now_nanos`. An unknown key, an unreadable value or one out of
    /// range is refused with `InvalidConfigValue`; otherwise the change is logged and the
    /// result says whether the configuration is to be written to storage.
    pub fn set_config_at(&mut self, key: &str, value: &str, now_nanos: i64) -> (r: Result<bool, ProactiveManagerError>)
        requires
            old(self).history().len() <= EVENT_HISTORY_LIMIT,
        ensures
            final(self).running() == old(self).running(),
            final(self).started_at() == old(self).started_at(),
            final(self).history().len() <= EVENT_HISTORY_LIMIT,
            match settings_after(old(self).current(), key@, value@) {
                Some(s) => r == Ok::<bool, ProactiveManagerError>(s.auto_persist) && final(self).current() == s
                    && final(self).history() == history_after(
                    old(self).history(),
                    final(self).history().last(),
                ) && final(self).history().last().event_type == ProactiveEventType::ConfigurationChanged
                    && final(self).history().last().description@ == "Configuration changed: "@ + key@ + " = "@ + value@
                    && final(self).history().last().timestamp_nanos == now_nanos,
                None => r matches Err(ProactiveManagerError::InvalidConfigValue { key: k, value: v })
                    && k@ == key@ && v@ == value@ && final(self).current() == old(self).current()
                    && final(self).history() == old(self).history(),
            },
    {
        let ok: bool;
        if str_equal(key, "gap_interval") {
            ok = match parse_unsigned(value, u64::MAX) {
                Some(m) => 1 <= m && m <= 1440,
                None => false,
            };
        } else if str_equal(key, "max_tasks") {
            ok = match parse_unsigned(value, usize::MAX as u64) {
                Some(t) => {
                    if 1 <= t && t <= 50 {
                        self.settings.max_concurrent_tasks = t as usize;
                        true
                    } else {
                        false
                    }
                },
                None => false,
            };
        } else if str_equal(key, "debounce") {
            ok = match parse_unsigned(value, u64::MAX) {
                Some(d) => d <= 300,
                None => false,
            };
        } else if str_equal(key, "auto_persist") {
            ok = match parse_bool(value) {
                Some(b) => {
                    self.settings.auto_persist = b;
                    true
                },
                None => false,
            };
        } else {
            ok = false;
        }
        if !ok {
            return Err(ProactiveManagerError::InvalidConfigValue { key: key.to_owned(), value: value.to_owned() });
        }
        let mut description = String::new();
        description.append("Configuration changed: ");
        description.append(key);
        description.append(" = ");
        description.append(value);
        self.log_event_at(ProactiveEventType::ConfigurationChanged, description, None, None, now_nanos);
        Ok(self.settings.auto_persist)
    }

    /// The value of a setting, refused with `InvalidConfigValue` for an unknown key.
    pub fn get_config(&self, key: &str) -> (r: Result<String, ProactiveManagerError>)
        ensures
            match config_value(self.current(), key@) {
                Some(v) => r matches Ok(s) && s@ == v,
                None => r matches Err(ProactiveManagerError::InvalidConfigValue { key: k, value: v })
                    && k@ == key@ && v@ == "unknown key"@,
            },
    {
        if str_equal(key, "gap_interval") {
            Ok("30".to_owned())
        } else if str_equal(key, "max_tasks") {
            let mut s = String::new();
            append_decimal(&mut s, self.settings.max_concurrent_tasks as u64);
            Ok(s)
        } else if str_equal(key, "debounce") {
            Ok("5".to_owned())
        } else if str_equal(key, "auto_persist") {
            Ok(if self.settings.auto_persist { "true".to_owned() } else { "false".to_owned() })
        } else {
            Err(ProactiveManagerError::InvalidConfigValue { key: key.to_owned(), value: "unknown key".to_owned() })
        }
    }

    /// Every setting with its value, in the order `gap_interval`, `max_tasks`,
    /// `debounce`, `auto_persist`.
    pub fn list_config(&self) -> (r: Result<Vec<(String, String)>, ProactiveManagerError>)
        ensures
            r matches Ok(v) && v@.len() == 4 && {
                &&& v@[0].0@ == "gap_interval"@ && Some(v@[0].1@) == config_value(self.current(), "gap_interval"@)
                &&& v@[1].0@ == "max_tasks"@ && Some(v@[1].1@) == config_value(self.current(), "max_tasks"@)
                &&& v@[2].0@ == "debounce"@ && Some(v@[2].1@) == config_value(self.current(), "debounce"@)
                &&& v@[3].0@ == "auto_persist"@ && Some(v@[3].1@) == config_value(self.current(), "auto_persist"@)
            },
    {
        let mut v: Vec<(String, String)> = Vec::new();
        let keys = ["gap_interval", "max_tasks", "debounce", "auto_persist"];
        let mut i: usize = 0;
        while i < 4
            invariant
                i <= 4,
                v@.len() == i,
                keys@ == seq!["gap_interval", "max_tasks", "debounce", "auto_persist"],
                forall|k: int| 0 <= k < i ==> #[trigger] v@[k].0@ == keys@[k]@ && Some(v@[k].1@) == config_value(
                    self.current(),
                    keys@[k]@,
                ),
            decreases 4 - i,
        {
            let key = keys[i];
            match self.get_config(key) {
                Ok(value) => v.push((key.to_owned(), value)),
                Err(_) => {},
            }
            proof { lemma_known_keys(); }
            i = i + 1;
        }
        Ok(v)
    }

    /// Go back to `defaults` at `now_nanos`, logging the change; the result says whether
    /// the configuration is to be written to storage.
    pub fn reset_config_at(&mut self, defaults: ManagerSettings, now_nanos: i64) -> (r: Result<bool, ProactiveManagerError>)
        requires
            old(self).history().len() <= EVENT_HISTORY_LIMIT,
        ensures
            r == Ok::<bool, ProactiveManagerError>(defaults.auto_persist),
            final(self).current() == defaults,
            final(self).running() == old(self).running(),
            final(self).started_at() == old(self).started_at(),
            final(self).history().len() <= EVENT_HISTORY_LIMIT,
            final(self).history().last().event_type == ProactiveEventType::ConfigurationChanged,
            final(self).history().last().description@ == "Configuration reset to defaults"@,
            final(self).history().last().timestamp_nanos == now_nanos,
    {
        self.settings = defaults;
        self.log_event_at(
            ProactiveEventType::ConfigurationChanged,
            "Configuration reset to defaults".to_owned(),
            None,
            None,
            now_nanos,
        );
        Ok(self.settings.auto_persist)
    }
}

/// Every key `list_config` reports is known to `get_config`.
proof fn lemma_known_keys()
    ensures
        forall|s: ManagerSettings| #[trigger] config_value(s, "gap_interval"@) is Some,
        forall|s: ManagerSettings| #[trigger] config_value(s, "max_tasks"@) is Some,
        forall|s: ManagerSettings| #[trigger] config_value(s, "debounce"@) is Some,
        forall|s: ManagerSettings| #[trigger] config_value(s, "auto_persist"@) is Some,
{
}

/// Reading a setting back gives what was written: after `max_tasks` is set, it reads
/// as the decimal text of the number written, and after `auto_persist` is set, as the
/// boolean written; the other keys are checked and change nothing.
pub proof fn lemma_set_then_get(s: ManagerSettings, key: Seq<char>, value: Seq<char>)
    ensures
        key == "max_tasks"@ && settings_after(s, key, value) is Some ==> config_value(
            settings_after(s, key, value)->0,
            "max_tasks"@,
        ) == Some(decimal(unsigned_value(value, usize::MAX as nat)->0)),
        key == "auto_persist"@ && settings_after(s, key, value) is Some ==> config_value(
            settings_after(s, key, value)->0,
            "auto_persist"@,
        ) == Some(value),
        key != "max_tasks"@ && key != "auto_persist"@ && settings_after(s, key, value) is Some ==> settings_after(
            s,
            key,
            value,
        )->0 == s,
{
    reveal_strlit("max_tasks");
    reveal_strlit("auto_persist");
    reveal_strlit("gap_interval");
    reveal_strlit("debounce");
    assert("max_tasks"@.len() == 9);
    assert("auto_persist"@.len() == 12);
    assert("gap_interval"@.len() == 12);
    assert("debounce"@.len() == 8);
    assert("gap_interval"@[0] != "auto_persist"@[0]);
}

} // verus!
