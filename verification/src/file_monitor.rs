//! File events, the rules that decide which files are analysed, the bounded
//! three-lane event queue and the per-second event rate limiter.

use vstd::prelude::*;
use std::collections::VecDeque;
use crate::clock::system_now_nanos;
use crate::text::{
    chars_of, contains_seq, ends_with_seq, starts_with_seq, str_contains, string_views, vec_contains,
    vec_ends_with, vec_equal, vec_slice, vec_starts_with,
};

verus! {

/// Type of file system event.
#[derive(Debug, Clone, PartialEq, Eq)]
pub enum EventType {
    Create,
    Write,
    Remove,
    Rename,
    Other(String),
}

/// Processing priority (1-10, higher is more urgent) of an event of the given type.
pub open spec fn event_priority(t: EventType) -> u8 {
    match t {
        EventType::Create => 8,
        EventType::Write => 6,
        EventType::Remove => 4,
        EventType::Rename => 5,
        EventType::Other(_) => 3,
    }
}

/// A processed file system event.
#[derive(Debug, Clone)]
pub struct FileEvent {
    /// Path of the affected file
    pub path: String,
    /// Type of file system event
    pub event_type: EventType,
    /// When the event was processed, in nanoseconds since the Unix epoch
    pub timestamp_nanos: u64,
    /// Whether this event should trigger gap analysis
    pub should_trigger_analysis: bool,
    /// Priority score for processing (1-10, higher is more urgent)
    pub priority: u8,
}

impl FileEvent {
    /// Create a new file event stamped with the current time.
    pub fn new(path: String, event_type: EventType) -> (e: FileEvent)
        ensures
            e.path@ == path@,
            e.event_type == event_type,
            e.should_trigger_analysis,
            e.priority == event_priority(event_type),
    {
        let now = system_now_nanos();
        Self::new_at(path, event_type, now)
    }

    /// Create a new file event stamped with the given time.
    pub fn new_at(path: String, event_type: EventType, timestamp_nanos: u64) -> (e: FileEvent)
        ensures
            e.path == path,
            e.event_type == event_type,
            e.timestamp_nanos == timestamp_nanos,
            e.should_trigger_analysis,
            e.priority == event_priority(event_type),
    {
        let priority: u8 = match &event_type {
            EventType::Create => 8,
            EventType::Write => 6,
            EventType::Remove => 4,
            EventType::Rename => 5,
            EventType::Other(_) => 3,
        };
        FileEvent { path, event_type, timestamp_nanos, should_trigger_analysis: true, priority }
    }

    /// Decide whether this event triggers gap analysis, from the file patterns of `config`.
    pub fn update_analysis_trigger(&mut self, config: &FileMonitorConfig)
        ensures
            final(self).should_trigger_analysis == config.analyzes(
                old(self).path@,
                parent_of(old(self).path@),
            ),
            final(self).path == old(self).path,
            final(self).event_type == old(self).event_type,
            final(self).timestamp_nanos == old(self).timestamp_nanos,
            final(self).priority == old(self).priority,
    {
        self.should_trigger_analysis = config.should_analyze_file(self.path.as_str());
    }
}

/// The parent directory that `std::path::Path::parent` gives for a path, as text.
pub uninterp spec fn parent_of(path: Seq<char>) -> Option<Seq<char>>;

/// Calls `std::path::Path::parent` on the path and renders the parent as text. The result
/// is named by `parent_of`; what `Path::parent` computes is not restated here.
#[verifier::external_body]
fn path_parent(path: &str) -> (r: Option<String>)
    ensures
        match r {
            Some(p) => parent_of(path@) == Some(p@),
            None => parent_of(path@) == None::<Seq<char>>,
        },
{
    std::path::Path::new(path).parent().map(|p| p.to_string_lossy().into_owned())
}

/// Simple glob semantics: `*` matches everything, `*.ext` matches names ending in `ext`,
/// `dir/*` matches paths containing `dir`, anything else matches itself only.
pub open spec fn glob_matches(pattern: Seq<char>, text: Seq<char>) -> bool {
    if pattern == seq!['*'] {
        true
    } else if starts_with_seq(pattern, seq!['*', '.']) {
        ends_with_seq(text, pattern.subrange(2, pattern.len() as int))
    } else if ends_with_seq(pattern, seq!['/', '*']) {
        contains_seq(text, pattern.subrange(0, pattern.len() - 2))
    } else {
        pattern == text
    }
}

/// Simple glob pattern matching for file patterns.
pub fn glob_match(pattern: &str, text: &str) -> (r: bool)
    ensures
        r == glob_matches(pattern@, text@),
{
    let p = chars_of(pattern);
    let t = chars_of(text);
    let star: Vec<char> = vec!['*'];
    let star_dot: Vec<char> = vec!['*', '.'];
    let slash_star: Vec<char> = vec!['/', '*'];
    assert(star@ =~= seq!['*']);
    assert(star_dot@ =~= seq!['*', '.']);
    assert(slash_star@ =~= seq!['/', '*']);
    if vec_equal(&p, &star) {
        true
    } else if vec_starts_with(&p, &star_dot) {
        let ext = vec_slice(&p, 2, p.len());
        vec_ends_with(&t, &ext)
    } else if vec_ends_with(&p, &slash_star) {
        let prefix = vec_slice(&p, 0, p.len() - 2);
        vec_contains(&t, &prefix)
    } else {
        vec_equal(&p, &t)
    }
}

/// Configuration for file system monitoring.
#[derive(Debug, Clone)]
pub struct FileMonitorConfig {
    /// Debounce duration in milliseconds
    pub debounce_ms: u64,
    /// Include patterns for files to monitor
    pub include_patterns: Vec<String>,
    /// Exclude patterns for files to ignore
    pub exclude_patterns: Vec<String>,
    /// Directories to exclude from monitoring
    pub exclude_dirs: Vec<String>,
    /// Maximum file size to process (in MB)
    pub max_file_size_mb: u64,
    /// Maximum queue size for events
    pub max_queue_size: usize,
    /// Maximum events per second before rate limiting
    pub max_events_per_second: usize,
}

/// The include patterns of the Rust project preset.
pub open spec fn rust_include_patterns() -> Seq<Seq<char>> {
    seq!["*.rs"@, "Cargo.toml"@, "Cargo.lock"@, "*.md"@, "*.yaml"@, "*.yml"@, "*.toml"@]
}

/// The exclude patterns of the Rust project preset.
pub open spec fn rust_exclude_patterns() -> Seq<Seq<char>> {
    seq!["target/*"@, ".git/*"@, "*.tmp"@, "*.log"@, ".cargo/*"@, "*/.DS_Store"@, "*/Thumbs.db"@]
}

/// The excluded directories of the Rust project preset.
pub open spec fn rust_exclude_dirs() -> Seq<Seq<char>> {
    seq!["target"@, ".git"@, ".vscode"@, ".idea"@, "deps"@, "build"@, ".cargo"@, "node_modules"@]
}

impl FileMonitorConfig {
    /// The file-selection rule: a file is analysed when its parent directory contains none
    /// of the excluded directory names, no exclude pattern matches it and some include
    /// pattern does.
    pub open spec fn analyzes(&self, path: Seq<char>, parent: Option<Seq<char>>) -> bool {
        let dirs = string_views(self.exclude_dirs@);
        let excludes = string_views(self.exclude_patterns@);
        let includes = string_views(self.include_patterns@);
        &&& match parent {
            Some(p) => forall|i: int| 0 <= i < dirs.len() ==> !contains_seq(p, #[trigger] dirs[i]),
            None => true,
        }
        &&& forall|i: int| 0 <= i < excludes.len() ==> !glob_matches(#[trigger] excludes[i], path)
        &&& exists|i: int| 0 <= i < includes.len() && glob_matches(#[trigger] includes[i], path)
    }

    /// Create configuration optimized for Rust projects.
    pub fn for_rust_project() -> (c: FileMonitorConfig)
        ensures
            c.debounce_ms == 300,
            string_views(c.include_patterns@) == rust_include_patterns(),
            string_views(c.exclude_patterns@) == rust_exclude_patterns(),
            string_views(c.exclude_dirs@) == rust_exclude_dirs(),
            c.max_file_size_mb == 50,
            c.max_queue_size == 1000,
            c.max_events_per_second == 100,
    {
        let include_patterns: Vec<String> = vec![
            "*.rs".to_owned(),
            "Cargo.toml".to_owned(),
            "Cargo.lock".to_owned(),
            "*.md".to_owned(),
            "*.yaml".to_owned(),
            "*.yml".to_owned(),
            "*.toml".to_owned(),
        ];
        let exclude_patterns: Vec<String> = vec![
            "target/*".to_owned(),
            ".git/*".to_owned(),
            "*.tmp".to_owned(),
            "*.log".to_owned(),
            ".cargo/*".to_owned(),
            "*/.DS_Store".to_owned(),
            "*/Thumbs.db".to_owned(),
        ];
        let exclude_dirs: Vec<String> = vec![
            "target".to_owned(),
            ".git".to_owned(),
            ".vscode".to_owned(),
            ".idea".to_owned(),
            "deps".to_owned(),
            "build".to_owned(),
            ".cargo".to_owned(),
            "node_modules".to_owned(),
        ];
        assert(string_views(include_patterns@) =~= rust_include_patterns());
        assert(string_views(exclude_patterns@) =~= rust_exclude_patterns());
        assert(string_views(exclude_dirs@) =~= rust_exclude_dirs());
        FileMonitorConfig {
            debounce_ms: 300,
            include_patterns,
            exclude_patterns,
            exclude_dirs,
            max_file_size_mb: 50,
            max_queue_size: 1000,
            max_events_per_second: 100,
        }
    }

    /// Builder method to set debounce duration.
    pub fn with_debounce_ms(self, debounce_ms: u64) -> (c: FileMonitorConfig)
        ensures
            c == (FileMonitorConfig { debounce_ms, ..self }),
    {
        FileMonitorConfig { debounce_ms, ..self }
    }

    /// Builder method to set maximum queue size.
    pub fn with_max_queue_size(self, max_queue_size: usize) -> (c: FileMonitorConfig)
        ensures
            c == (FileMonitorConfig { max_queue_size, ..self }),
    {
        FileMonitorConfig { max_queue_size, ..self }
    }

    /// Builder method to set include patterns.
    pub fn with_include_patterns(self, patterns: Vec<String>) -> (c: FileMonitorConfig)
        ensures
            c == (FileMonitorConfig { include_patterns: patterns, ..self }),
    {
        FileMonitorConfig { include_patterns: patterns, ..self }
    }

    /// Builder method to set exclude patterns.
    pub fn with_exclude_patterns(self, patterns: Vec<String>) -> (c: FileMonitorConfig)
        ensures
            c == (FileMonitorConfig { exclude_patterns: patterns, ..self }),
    {
        FileMonitorConfig { exclude_patterns: patterns, ..self }
    }

    /// Whether any excluded directory name occurs in the parent directory.
    fn parent_is_excluded(&self, parent: &str) -> (r: bool)
        ensures
            r == exists|i: int|
                0 <= i < self.exclude_dirs@.len() && contains_seq(
                    parent@,
                    #[trigger] string_views(self.exclude_dirs@)[i],
                ),
    {
        let mut i: usize = 0;
        while i < self.exclude_dirs.len()
            invariant
                i <= self.exclude_dirs@.len(),
                forall|k: int|
                    0 <= k < i ==> !contains_seq(
                        parent@,
                        #[trigger] string_views(self.exclude_dirs@)[k],
                    ),
            decreases self.exclude_dirs.len() - i,
        {
            if str_contains(parent, self.exclude_dirs[i].as_str()) {
                assert(string_views(self.exclude_dirs@)[i as int] == self.exclude_dirs@[i as int]@);
                return true;
            }
            i = i + 1;
        }
        false
    }

    /// Whether some pattern of `patterns` matches `path`.
    fn any_pattern_matches(patterns: &Vec<String>, path: &str) -> (r: bool)
        ensures
            r == exists|i: int|
                0 <= i < patterns@.len() && glob_matches(
                    #[trigger] string_views(patterns@)[i],
                    path@,
                ),
    {
        let mut i: usize = 0;
        while i < patterns.len()
            invariant
                i <= patterns@.len(),
                forall|k: int|
                    0 <= k < i ==> !glob_matches(#[trigger] string_views(patterns@)[k], path@),
            decreases patterns.len() - i,
        {
            if glob_match(patterns[i].as_str(), path) {
                assert(string_views(patterns@)[i as int] == patterns@[i as int]@);
                return true;
            }
            i = i + 1;
        }
        false
    }

    /// The file-selection rule applied to a path whose parent directory, as
    /// `std::path::Path::parent` gives it, is `parent`.
    pub fn should_analyze_with_parent(&self, path: &str, parent: Option<&str>) -> (r: bool)
        ensures
            r == self.analyzes(
                path@,
                match parent {
                    Some(p) => Some(p@),
                    None => None,
                },
            ),
    {
        if let Some(p) = parent {
            if self.parent_is_excluded(p) {
                return false;
            }
        }
        if Self::any_pattern_matches(&self.exclude_patterns, path) {
            return false;
        }
        Self::any_pattern_matches(&self.include_patterns, path)
    }

    /// Check if a file should be analyzed based on patterns.
    pub fn should_analyze_file(&self, path: &str) -> (r: bool)
        ensures
            r == self.analyzes(path@, parent_of(path@)),
    {
        let parent = path_parent(path);
        match &parent {
            Some(p) => self.should_analyze_with_parent(path, Some(p.as_str())),
            None => self.should_analyze_with_parent(path, None),
        }
    }
}

/// More exclusions never select more files: where one configuration's include patterns
/// are another's, and its exclude patterns and excluded directories include the other's,
/// every file it analyses the other analyses too.
pub proof fn lemma_more_exclusions_select_fewer(
    c: FileMonitorConfig,
    d: FileMonitorConfig,
    path: Seq<char>,
    parent: Option<Seq<char>>,
)
    requires
        string_views(d.include_patterns@) == string_views(c.include_patterns@),
        forall|x: Seq<char>| string_views(c.exclude_patterns@).contains(x) ==> #[trigger] string_views(d.exclude_patterns@).contains(x),
        forall|x: Seq<char>| string_views(c.exclude_dirs@).contains(x) ==> #[trigger] string_views(d.exclude_dirs@).contains(x),
        d.analyzes(path, parent),
    ensures
        c.analyzes(path, parent),
{
    let cx = string_views(c.exclude_patterns@);
    let dx = string_views(d.exclude_patterns@);
    let cd = string_views(c.exclude_dirs@);
    let dd = string_views(d.exclude_dirs@);
    assert forall|i: int| 0 <= i < cx.len() implies !glob_matches(#[trigger] cx[i], path) by {
        assert(cx.contains(cx[i]));
        assert(dx.contains(cx[i]));
        let j = choose|j: int| 0 <= j < dx.len() && dx[j] == cx[i];
        assert(!glob_matches(dx[j], path));
    }
    match parent {
        Some(p) => {
            assert forall|i: int| 0 <= i < cd.len() implies !contains_seq(p, #[trigger] cd[i]) by {
                assert(cd.contains(cd[i]));
                assert(dd.contains(cd[i]));
                let j = choose|j: int| 0 <= j < dd.len() && dd[j] == cd[i];
                assert(!contains_seq(p, dd[j]));
            }
        },
        None => {},
    }
}

/// The lane of the event queue that an event of the given priority waits in.
#[derive(Debug, Clone, Copy, PartialEq, Eq, Structural)]
pub enum QueueLane {
    High,
    Normal,
    Low,
}

/// Priorities 8-10 wait in the high lane, 4-7 in the normal lane, the rest in the low lane.
pub open spec fn lane_of(priority: u8) -> QueueLane {
    if 8 <= priority <= 10 {
        QueueLane::High
    } else if 4 <= priority <= 7 {
        QueueLane::Normal
    } else {
        QueueLane::Low
    }
}

/// The contents of an event queue: three FIFO lanes, oldest first, and a capacity.
pub struct QueueModel {
    pub high: Seq<FileEvent>,
    pub normal: Seq<FileEvent>,
    pub low: Seq<FileEvent>,
    pub capacity: nat,
}

impl QueueModel {
    /// Number of waiting events.
    pub open spec fn size(self) -> nat {
        self.high.len() + self.normal.len() + self.low.len()
    }

    /// The queue holds no more events than its capacity.
    pub open spec fn within_capacity(self) -> bool {
        self.size() <= self.capacity
    }

    /// Every waiting event sits in the lane of its priority.
    pub open spec fn lanes_consistent(self) -> bool {
        &&& forall|i: int| 0 <= i < self.high.len() ==> lane_of(#[trigger] self.high[i].priority) == QueueLane::High
        &&& forall|i: int| 0 <= i < self.normal.len() ==> lane_of(#[trigger] self.normal[i].priority) == QueueLane::Normal
        &&& forall|i: int| 0 <= i < self.low.len() ==> lane_of(#[trigger] self.low[i].priority) == QueueLane::Low
    }

    /// Whether an event offered to this queue is accepted: there is room, or a low or
    /// normal event can be evicted.
    pub open spec fn accepts(self) -> bool {
        self.size() < self.capacity || self.low.len() > 0 || self.normal.len() > 0
    }

    /// The queue after making room: when full, the oldest low event leaves, else the
    /// oldest normal event.
    pub open spec fn make_room(self) -> QueueModel {
        if self.size() < self.capacity {
            self
        } else if self.low.len() > 0 {
            QueueModel { low: self.low.drop_first(), ..self }
        } else if self.normal.len() > 0 {
            QueueModel { normal: self.normal.drop_first(), ..self }
        } else {
            self
        }
    }

    /// The queue with `e` appended to the lane of its priority.
    pub open spec fn push(self, e: FileEvent) -> QueueModel {
        match lane_of(e.priority) {
            QueueLane::High => QueueModel { high: self.high.push(e), ..self },
            QueueLane::Normal => QueueModel { normal: self.normal.push(e), ..self },
            QueueLane::Low => QueueModel { low: self.low.push(e), ..self },
        }
    }

    /// The queue after offering `e`.
    pub open spec fn enqueue(self, e: FileEvent) -> QueueModel {
        if self.accepts() {
            self.make_room().push(e)
        } else {
            self
        }
    }

    /// The event that leaves next: the oldest of the highest non-empty lane.
    pub open spec fn front(self) -> Option<FileEvent> {
        if self.high.len() > 0 {
            Some(self.high[0])
        } else if self.normal.len() > 0 {
            Some(self.normal[0])
        } else if self.low.len() > 0 {
            Some(self.low[0])
        } else {
            None
        }
    }

    /// The queue after the front event left.
    pub open spec fn dequeue(self) -> QueueModel {
        if self.high.len() > 0 {
            QueueModel { high: self.high.drop_first(), ..self }
        } else if self.normal.len() > 0 {
            QueueModel { normal: self.normal.drop_first(), ..self }
        } else if self.low.len() > 0 {
            QueueModel { low: self.low.drop_first(), ..self }
        } else {
            self
        }
    }
}

/// Event queue for managing file events with priority: three FIFO lanes and a capacity.
#[derive(Debug)]
pub struct EventQueue {
    high_priority: VecDeque<FileEvent>,
    normal_priority: VecDeque<FileEvent>,
    low_priority: VecDeque<FileEvent>,
    max_size: usize,
}

impl View for EventQueue {
    type V = QueueModel;

    closed spec fn view(&self) -> QueueModel {
        QueueModel {
            high: self.high_priority@,
            normal: self.normal_priority@,
            low: self.low_priority@,
            capacity: self.max_size as nat,
        }
    }
}

impl EventQueue {
    /// Create an empty queue holding at most `max_size` events.
    pub fn new(max_size: usize) -> (q: EventQueue)
        ensures
            q@ == (QueueModel {
                high: Seq::empty(),
                normal: Seq::empty(),
                low: Seq::empty(),
                capacity: max_size as nat,
            }),
    {
        let q = EventQueue {
            high_priority: VecDeque::new(),
            normal_priority: VecDeque::new(),
            low_priority: VecDeque::new(),
            max_size,
        };
        assert(q@.high =~= Seq::<FileEvent>::empty());
        q
    }

    /// Add an event to the lane of its priority. When the queue is full the oldest low
    /// event, else the oldest normal event, makes room; when only high events wait the
    /// event is refused and `false` returned.
    pub fn enqueue(&mut self, event: FileEvent) -> (accepted: bool)
        requires
            old(self)@.within_capacity(),
        ensures
            accepted == old(self)@.accepts(),
            final(self)@ == old(self)@.enqueue(event),
    {
        if self.total_size() >= self.max_size {
            if self.low_priority.len() > 0 {
                self.low_priority.pop_front();
            } else if self.normal_priority.len() > 0 {
                self.normal_priority.pop_front();
            } else {
                return false;
            }
        }
        if 8 <= event.priority && event.priority <= 10 {
            self.high_priority.push_back(event);
        } else if 4 <= event.priority && event.priority <= 7 {
            self.normal_priority.push_back(event);
        } else {
            self.low_priority.push_back(event);
        }
        true
    }

    /// Remove and return the oldest event of the highest non-empty lane.
    pub fn dequeue(&mut self) -> (e: Option<FileEvent>)
        ensures
            e == old(self)@.front(),
            final(self)@ == old(self)@.dequeue(),
    {
        if self.high_priority.len() > 0 {
            self.high_priority.pop_front()
        } else if self.normal_priority.len() > 0 {
            self.normal_priority.pop_front()
        } else {
            self.low_priority.pop_front()
        }
    }

    /// Number of waiting events.
    pub fn total_size(&self) -> (n: usize)
        requires
            self@.within_capacity(),
        ensures
            n == self@.size(),
    {
        self.high_priority.len() + self.normal_priority.len() + self.low_priority.len()
    }
}

/// Offering an event never takes the queue past its capacity.
pub proof fn lemma_enqueue_within_capacity(q: QueueModel, e: FileEvent)
    requires
        q.within_capacity(),
    ensures
        q.enqueue(e).within_capacity(),
{
}

/// Taking the front event never takes the queue past its capacity, and removes exactly
/// one event when there is one.
pub proof fn lemma_dequeue_within_capacity(q: QueueModel)
    requires
        q.within_capacity(),
    ensures
        q.dequeue().within_capacity(),
        q.front() is Some ==> q.dequeue().size() + 1 == q.size(),
        q.front() is None ==> q.size() == 0 && q.dequeue() == q,
{
}

/// High-priority events are never evicted: offering an event leaves every waiting high
/// event in place, in its order.
pub proof fn lemma_enqueue_keeps_high(q: QueueModel, e: FileEvent)
    ensures
        q.high.is_prefix_of(q.enqueue(e).high),
{
    assert(q.high.is_prefix_of(q.high));
    assert(q.high.is_prefix_of(q.high.push(e))) by {
        assert(q.high.push(e).subrange(0, q.high.len() as int) =~= q.high);
    }
}

/// Which event makes room: below capacity none leaves; a full queue evicts its oldest
/// low-priority event, and a normal-priority event only when no low one waits. So while
/// a low event waits, every normal event stays, and exactly one event leaves.
pub proof fn lemma_eviction_order(q: QueueModel, e: FileEvent)
    ensures
        q.size() < q.capacity ==> q.normal.is_prefix_of(q.enqueue(e).normal) && q.low.is_prefix_of(
            q.enqueue(e).low,
        ) && q.enqueue(e).size() == q.size() + 1,
        q.size() >= q.capacity && q.low.len() > 0 ==> q.normal.is_prefix_of(q.enqueue(e).normal)
            && q.low.drop_first().is_prefix_of(q.enqueue(e).low) && q.enqueue(e).size() == q.size(),
        q.size() >= q.capacity && q.low.len() == 0 && q.normal.len() > 0 ==> q.normal.drop_first().is_prefix_of(
            q.enqueue(e).normal,
        ) && q.enqueue(e).size() == q.size(),
{
    assert(q.normal.is_prefix_of(q.normal));
    assert(q.low.is_prefix_of(q.low));
    assert(q.normal.is_prefix_of(q.normal.push(e))) by {
        assert(q.normal.push(e).subrange(0, q.normal.len() as int) =~= q.normal);
    }
    assert(q.low.is_prefix_of(q.low.push(e))) by {
        assert(q.low.push(e).subrange(0, q.low.len() as int) =~= q.low);
    }
    let dl = q.low.drop_first();
    let dn = q.normal.drop_first();
    assert(dl.is_prefix_of(dl));
    assert(dn.is_prefix_of(dn));
    assert(dl.is_prefix_of(dl.push(e))) by {
        assert(dl.push(e).subrange(0, dl.len() as int) =~= dl);
    }
    assert(dn.is_prefix_of(dn.push(e))) by {
        assert(dn.push(e).subrange(0, dn.len() as int) =~= dn);
    }
}

/// Each lane is first in, first out: with room to spare, offering an event never changes
/// which event leaves next, unless the new event's lane is higher than every waiting
/// event's.
pub proof fn lemma_enqueue_keeps_front(q: QueueModel, e: FileEvent)
    requires
        q.size() < q.capacity,
    ensures
        q.high.len() > 0 ==> q.enqueue(e).front() == q.front(),
        q.high.len() == 0 && q.normal.len() > 0 && lane_of(e.priority) != QueueLane::High ==> q.enqueue(e).front()
            == q.front(),
        q.high.len() == 0 && q.normal.len() == 0 && q.low.len() > 0 && lane_of(e.priority) == QueueLane::Low
            ==> q.enqueue(e).front() == q.front(),
{
}

/// An accepted event is never lost in the offering: it ends the lane of its priority.
pub proof fn lemma_enqueue_appends(q: QueueModel, e: FileEvent)
    requires
        q.accepts(),
    ensures
        match lane_of(e.priority) {
            QueueLane::High => q.enqueue(e).high.last() == e,
            QueueLane::Normal => q.enqueue(e).normal.last() == e,
            QueueLane::Low => q.enqueue(e).low.last() == e,
        },
{
}

/// A refused event leaves the queue unchanged; events are refused only when the queue
/// is full of high-priority events.
pub proof fn lemma_enqueue_refused(q: QueueModel, e: FileEvent)
    requires
        q.within_capacity(),
        !q.accepts(),
    ensures
        q.enqueue(e) == q,
        q.size() == q.capacity,
        q.high.len() == q.size(),
{
}

/// What goes into an empty queue with room comes back out: enqueue then dequeue
/// returns the event and leaves the queue empty again.
pub proof fn lemma_enqueue_dequeue_roundtrip(capacity: nat, e: FileEvent)
    requires
        capacity > 0,
    ensures
        ({
            let empty = QueueModel {
                high: Seq::empty(),
                normal: Seq::empty(),
                low: Seq::empty(),
                capacity,
            };
            &&& empty.enqueue(e).front() == Some(e)
            &&& empty.enqueue(e).dequeue() == empty
        }),
{
    let empty = QueueModel { high: Seq::empty(), normal: Seq::empty(), low: Seq::empty(), capacity };
    assert(empty.enqueue(e).dequeue().high =~= empty.high);
    assert(empty.enqueue(e).dequeue().normal =~= empty.normal);
    assert(empty.enqueue(e).dequeue().low =~= empty.low);
}

/// Every event waits in the lane of its priority, whatever was offered and taken.
pub proof fn lemma_lanes_consistent(q: QueueModel, e: FileEvent)
    requires
        q.lanes_consistent(),
    ensures
        q.enqueue(e).lanes_consistent(),
        q.dequeue().lanes_consistent(),
{
    let r = q.make_room();
    assert(r.lanes_consistent()) by {
        if q.size() >= q.capacity && q.low.len() > 0 {
            assert forall|i: int| 0 <= i < r.low.len() implies lane_of(#[trigger] r.low[i].priority) == QueueLane::Low by {
                assert(r.low[i] == q.low[i + 1]);
            }
        } else if q.size() >= q.capacity && q.normal.len() > 0 {
            assert forall|i: int| 0 <= i < r.normal.len() implies lane_of(#[trigger] r.normal[i].priority) == QueueLane::Normal by {
                assert(r.normal[i] == q.normal[i + 1]);
            }
        }
    }
    let d = q.dequeue();
    assert(d.lanes_consistent()) by {
        if q.high.len() > 0 {
            assert forall|i: int| 0 <= i < d.high.len() implies lane_of(#[trigger] d.high[i].priority) == QueueLane::High by {
                assert(d.high[i] == q.high[i + 1]);
            }
        } else if q.normal.len() > 0 {
            assert forall|i: int| 0 <= i < d.normal.len() implies lane_of(#[trigger] d.normal[i].priority) == QueueLane::Normal by {
                assert(d.normal[i] == q.normal[i + 1]);
            }
        } else if q.low.len() > 0 {
            assert forall|i: int| 0 <= i < d.low.len() implies lane_of(#[trigger] d.low[i].priority) == QueueLane::Low by {
                assert(d.low[i] == q.low[i + 1]);
            }
        }
    }
}

/// The front event belongs to the highest non-empty lane: no waiting event has a
/// strictly higher lane than the one returned.
pub proof fn lemma_front_is_highest(q: QueueModel)
    requires
        q.lanes_consistent(),
    ensures
        q.front() matches Some(e) ==> (lane_of(e.priority) == QueueLane::Low ==> q.high.len() == 0 && q.normal.len() == 0),
        q.front() matches Some(e) ==> (lane_of(e.priority) == QueueLane::Normal ==> q.high.len() == 0),
{
}

/// Per-second limiter for incoming file events: the count restarts once a second has
/// passed since the last reset, and an event is processed while fewer than the limit
/// have been counted in the current second.
#[derive(Debug, Clone)]
pub struct EventRateLimiter {
    pub max_events_per_second: usize,
    pub event_count: u64,
    pub last_reset_nanos: u64,
}

/// Nanoseconds from `earlier` to `later`, zero when the clock went backwards.
pub open spec fn elapsed_nanos(earlier: u64, later: u64) -> int {
    if later >= earlier {
        later - earlier
    } else {
        0
    }
}

/// The count of the current second before an event at `now`: restarted once a second
/// has passed since the last reset.
pub open spec fn count_before(l: EventRateLimiter, now: u64) -> u64 {
    if elapsed_nanos(l.last_reset_nanos, now) >= 1_000_000_000 { 0 } else { l.event_count }
}

/// Whether an event at `now` is processed: fewer than the limit were counted this second.
pub open spec fn limiter_admits(l: EventRateLimiter, now: u64) -> bool {
    count_before(l, now) < l.max_events_per_second
}

/// The limiter after counting an event at `now`.
pub open spec fn limiter_after(l: EventRateLimiter, now: u64) -> EventRateLimiter {
    let reset = elapsed_nanos(l.last_reset_nanos, now) >= 1_000_000_000;
    let count0 = count_before(l, now);
    EventRateLimiter {
        max_events_per_second: l.max_events_per_second,
        event_count: if count0 == u64::MAX { 0 } else { (count0 + 1) as u64 },
        last_reset_nanos: if reset { now } else { l.last_reset_nanos },
    }
}

impl EventRateLimiter {
    /// A limiter whose first second starts at `now_nanos`, nothing counted.
    pub open spec fn new_spec(max_events_per_second: usize, now_nanos: u64) -> EventRateLimiter {
        EventRateLimiter { max_events_per_second, event_count: 0, last_reset_nanos: now_nanos }
    }

    /// A limiter whose first second starts at `now_nanos`.
    pub fn new_at(max_events_per_second: usize, now_nanos: u64) -> (l: EventRateLimiter)
        ensures
            l == Self::new_spec(max_events_per_second, now_nanos),
    {
        EventRateLimiter { max_events_per_second, event_count: 0, last_reset_nanos: now_nanos }
    }

    /// A limiter whose first second starts now.
    pub fn new(max_events_per_second: usize) -> (l: EventRateLimiter)
        ensures
            l.max_events_per_second == max_events_per_second,
            l.event_count == 0,
    {
        Self::new_at(max_events_per_second, system_now_nanos())
    }

    /// Count one event arriving at `now_nanos` and decide whether it is processed.
    pub fn should_process_event_at(&mut self, now_nanos: u64) -> (r: bool)
        ensures
            *final(self) == limiter_after(*old(self), now_nanos),
            r == limiter_admits(*old(self), now_nanos),
    {
        let elapsed: u64 = if now_nanos >= self.last_reset_nanos {
            now_nanos - self.last_reset_nanos
        } else {
            0
        };
        if elapsed >= 1_000_000_000 {
            self.event_count = 0;
            self.last_reset_nanos = now_nanos;
        }
        let current = self.event_count;
        self.event_count = if current == u64::MAX { 0 } else { current + 1 };
        (current as u128) < (self.max_events_per_second as u128)
    }

    /// Count one event arriving now and decide whether it is processed: as
    /// `should_process_event_at` does at the time the system clock reads, which is not
    /// stated.
    pub fn should_process_event(&mut self) -> (r: bool)
        ensures
            final(self).max_events_per_second == old(self).max_events_per_second,
            r ==> final(self).event_count <= old(self).max_events_per_second,
            exists|now: u64| *final(self) == limiter_after(*old(self), now) && r == limiter_admits(*old(self), now),
    {
        let now = system_now_nanos();
        let r = self.should_process_event_at(now);
        assert(*self == limiter_after(*old(self), now) && r == limiter_admits(*old(self), now));
        r
    }
}


/// What is known of a path when its debounced event is handled: whether it still exists
/// and, when the file system reports it, its creation time in seconds since the Unix
/// epoch.
#[derive(Debug, Clone)]
pub struct PathObservation {
    pub path: String,
    pub exists: bool,
    pub created_secs: Option<u64>,
}

impl PathObservation {
    /// A field-by-field copy.
    pub fn duplicate(&self) -> (r: PathObservation)
        ensures
            r == *self,
    {
        PathObservation { path: self.path.clone(), exists: self.exists, created_secs: self.created_secs }
    }
}

/// The kind of a debounced event: a path that no longer exists was removed; one created
/// less than five seconds before `now_secs` was created; any other was written.
pub open spec fn debounced_event_type(exists: bool, created_secs: Option<u64>, now_secs: u64) -> EventType {
    if !exists {
        EventType::Remove
    } else {
        match created_secs {
            Some(c) => if now_secs - c < 5 { EventType::Create } else { EventType::Write },
            None => EventType::Write,
        }
    }
}

/// A creation time is not later than the clock it is compared with.
pub open spec fn created_not_after(created_secs: Option<u64>, now_secs: u64) -> bool {
    match created_secs {
        Some(c) => c <= now_secs,
        None => true,
    }
}

/// Classify a debounced event from what is known of its path.
pub fn classify_debounced_event(exists: bool, created_secs: Option<u64>, now_secs: u64) -> (t: EventType)
    requires
        exists ==> created_not_after(created_secs, now_secs),
    ensures
        t == debounced_event_type(exists, created_secs, now_secs),
{
    if !exists {
        return EventType::Remove;
    }
    match created_secs {
        Some(c) => if now_secs - c < 5 { EventType::Create } else { EventType::Write },
        None => EventType::Write,
    }
}

/// What became of one debounced event.
#[derive(Debug, Clone, Copy, PartialEq, Eq, Structural)]
pub enum DebouncedOutcome {
    /// Dropped by the rate limiter
    RateLimited,
    /// The file is not one to analyze
    Ignored,
    /// Queued for analysis
    Enqueued,
    /// Dropped because only high priority events wait in a full queue
    QueueFull,
}

/// The event built for an observation at `now_nanos` / `now_secs`, before its trigger is
/// decided.
pub open spec fn observed_event(o: PathObservation, now_nanos: u64, now_secs: u64) -> FileEvent {
    let t = debounced_event_type(o.exists, o.created_secs, now_secs);
    FileEvent {
        path: o.path,
        event_type: t,
        timestamp_nanos: now_nanos,
        should_trigger_analysis: true,
        priority: event_priority(t),
    }
}

/// Queue, limiter and outcome after handling one observation.
pub open spec fn handle_observation(
    q: QueueModel,
    l: EventRateLimiter,
    config: FileMonitorConfig,
    o: PathObservation,
    now_nanos: u64,
    now_secs: u64,
) -> (QueueModel, EventRateLimiter, DebouncedOutcome) {
    let l2 = limiter_after(l, now_nanos);
    if !limiter_admits(l, now_nanos) {
        (q, l2, DebouncedOutcome::RateLimited)
    } else if !config.analyzes(o.path@, parent_of(o.path@)) {
        (q, l2, DebouncedOutcome::Ignored)
    } else if q.accepts() {
        (q.enqueue(observed_event(o, now_nanos, now_secs)), l2, DebouncedOutcome::Enqueued)
    } else {
        (q, l2, DebouncedOutcome::QueueFull)
    }
}

/// Queue, limiter and outcomes after handling the observations in order.
pub open spec fn handle_observations(
    q: QueueModel,
    l: EventRateLimiter,
    config: FileMonitorConfig,
    os: Seq<PathObservation>,
    now_nanos: u64,
    now_secs: u64,
) -> (QueueModel, EventRateLimiter, Seq<DebouncedOutcome>)
    decreases os.len(),
{
    if os.len() == 0 {
        (q, l, Seq::empty())
    } else {
        let (q1, l1, outs) = handle_observations(q, l, config, os.drop_last(), now_nanos, now_secs);
        let (q2, l2, out) = handle_observation(q1, l1, config, os.last(), now_nanos, now_secs);
        (q2, l2, outs.push(out))
    }
}

/// The file monitor's queue, rate limiter and configuration; the watcher that feeds it
/// observations lives with the caller.
#[derive(Debug)]
pub struct FileMonitor {
    event_queue: EventQueue,
    rate_limiter: EventRateLimiter,
    config: FileMonitorConfig,
}

impl FileMonitor {
    /// The queue holds no more events than its capacity.
    pub closed spec fn wf(&self) -> bool {
        self.event_queue@.within_capacity()
    }

    pub closed spec fn queue(&self) -> QueueModel {
        self.event_queue@
    }

    pub closed spec fn limiter(&self) -> EventRateLimiter {
        self.rate_limiter
    }

    pub closed spec fn settings(&self) -> FileMonitorConfig {
        self.config
    }

    /// An empty queue of the configured size and a limiter whose first second starts at
    /// `now_nanos`.
    pub fn new_at(config: FileMonitorConfig, now_nanos: u64) -> (m: FileMonitor)
        ensures
            m.queue() == (QueueModel {
                high: Seq::empty(),
                normal: Seq::empty(),
                low: Seq::empty(),
                capacity: config.max_queue_size as nat,
            }),
            m.limiter() == EventRateLimiter::new_spec(config.max_events_per_second, now_nanos),
            m.settings() == config,
            m.wf(),
    {
        let event_queue = EventQueue::new(config.max_queue_size);
        let rate_limiter = EventRateLimiter::new_at(config.max_events_per_second, now_nanos);
        FileMonitor { event_queue, rate_limiter, config }
    }

    /// Handle one debounced event observed at `now_nanos` / `now_secs`: drop it when the
    /// rate limit is reached, classify it, and queue it when its file is one to analyze.
    pub fn process_observation_at(&mut self, o: PathObservation, now_nanos: u64, now_secs: u64) -> (out: DebouncedOutcome)
        requires
            old(self).wf(),
            o.exists ==> created_not_after(o.created_secs, now_secs),
        ensures
            final(self).settings() == old(self).settings(),
            final(self).wf(),
            (final(self).queue(), final(self).limiter(), out) == handle_observation(
                old(self).queue(),
                old(self).limiter(),
                old(self).settings(),
                o,
                now_nanos,
                now_secs,
            ),
    {
        proof { lemma_enqueue_within_capacity(self.event_queue@, observed_event(o, now_nanos, now_secs)); }
        if !self.rate_limiter.should_process_event_at(now_nanos) {
            return DebouncedOutcome::RateLimited;
        }
        let t = classify_debounced_event(o.exists, o.created_secs, now_secs);
        let mut event = FileEvent::new_at(o.path, t, now_nanos);
        event.update_analysis_trigger(&self.config);
        if !event.should_trigger_analysis {
            return DebouncedOutcome::Ignored;
        }
        assert(event == observed_event(o, now_nanos, now_secs));
        if self.event_queue.enqueue(event) {
            DebouncedOutcome::Enqueued
        } else {
            DebouncedOutcome::QueueFull
        }
    }

    /// Handle a batch of debounced events, in order.
    pub fn process_debounced_events_at(&mut self, events: Vec<PathObservation>, now_nanos: u64, now_secs: u64) -> (outs: Vec<DebouncedOutcome>)
        requires
            old(self).wf(),
            forall|i: int| 0 <= i < events@.len() ==> (#[trigger] events@[i]).exists ==> created_not_after(events@[i].created_secs, now_secs),
        ensures
            final(self).settings() == old(self).settings(),
            final(self).wf(),
            (final(self).queue(), final(self).limiter(), outs@) == handle_observations(
                old(self).queue(),
                old(self).limiter(),
                old(self).settings(),
                events@,
                now_nanos,
                now_secs,
            ),
    {
        let ghost os = events@;
        let ghost q0 = self.event_queue@;
        let ghost l0 = self.rate_limiter;
        let mut outs: Vec<DebouncedOutcome> = Vec::new();
        let mut i: usize = 0;
        while i < events.len()
            invariant
                os == events@,
                i <= os.len(),
                self.config == old(self).config,
                self.event_queue@.within_capacity(),
                forall|k: int| 0 <= k < os.len() ==> (#[trigger] os[k]).exists ==> created_not_after(os[k].created_secs, now_secs),
                (self.event_queue@, self.rate_limiter, outs@) == handle_observations(
                    q0,
                    l0,
                    self.config,
                    os.take(i as int),
                    now_nanos,
                    now_secs,
                ),
            decreases events.len() - i,
        {
            assert(os.take(i + 1).drop_last() =~= os.take(i as int));
            assert(os.take(i + 1).last() == os[i as int]);
            let out = self.process_observation_at(events[i].duplicate(), now_nanos, now_secs);
            outs.push(out);
            i = i + 1;
        }
        assert(os.take(os.len() as int) =~= os);
        outs
    }

    /// The next queued event, highest lane first.
    pub fn next_event(&mut self) -> (e: Option<FileEvent>)
        requires
            old(self).wf(),
        ensures
            final(self).wf(),
            e == old(self).queue().front(),
            final(self).queue() == old(self).queue().dequeue(),
            final(self).settings() == old(self).settings(),
            final(self).limiter() == old(self).limiter(),
    {
        proof { lemma_dequeue_within_capacity(self.event_queue@); }
        self.event_queue.dequeue()
    }

    /// Waiting events and the queue's configured size.
    pub fn get_queue_stats(&self) -> (r: (usize, usize))
        requires
            self.wf(),
        ensures
            r.0 == self.queue().size(),
            r.1 == self.settings().max_queue_size,
    {
        (self.event_queue.total_size(), self.config.max_queue_size)
    }
}

} // verus!
