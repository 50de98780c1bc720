//! Task priorities, task lifecycle states and the priority-ordered task queue.

use vstd::prelude::*;
use crate::gap_analyzer::{metadata_view, DetectedGap, GapRecord, GapType};
use crate::text::{decimal, decimal_string};
use crate::clock::{is_hyphenated_uuid, new_uuid_v4, utc_now_nanos};

verus! {

/// Priority levels for research tasks.
#[derive(Debug, Clone, Copy, PartialEq, Eq, Structural, Hash)]
pub enum TaskPriority {
    Low,
    Medium,
    High,
    Critical,
}

/// Numeric level of a priority on the 1-10 scale.
pub open spec fn priority_level(p: TaskPriority) -> u8 {
    match p {
        TaskPriority::Low => 1,
        TaskPriority::Medium => 5,
        TaskPriority::High => 9,
        TaskPriority::Critical => 10,
    }
}

/// The display name of a task priority.
pub open spec fn priority_label(p: TaskPriority) -> Seq<char> {
    match p {
        TaskPriority::Low => "low"@,
        TaskPriority::Medium => "medium"@,
        TaskPriority::High => "high"@,
        TaskPriority::Critical => "critical"@,
    }
}

/// The priority that a numeric value on the 1-10 scale falls into.
pub open spec fn priority_of_level(value: u8) -> TaskPriority {
    if 1 <= value <= 2 {
        TaskPriority::Low
    } else if 3 <= value <= 6 {
        TaskPriority::Medium
    } else if 7 <= value <= 9 {
        TaskPriority::High
    } else {
        TaskPriority::Critical
    }
}

impl TaskPriority {
    /// Create priority from numeric value (1-10 scale).
    pub fn from_u8(value: u8) -> (p: TaskPriority)
        ensures
            p == priority_of_level(value),
    {
        if 1 <= value && value <= 2 {
            TaskPriority::Low
        } else if 3 <= value && value <= 6 {
            TaskPriority::Medium
        } else if 7 <= value && value <= 9 {
            TaskPriority::High
        } else {
            TaskPriority::Critical
        }
    }

    /// The display name of the priority, in lower case.
    pub fn to_string(&self) -> (s: String)
        ensures
            s@ == priority_label(*self),
    {
        match self {
            TaskPriority::Low => "low".to_owned(),
            TaskPriority::Medium => "medium".to_owned(),
            TaskPriority::High => "high".to_owned(),
            TaskPriority::Critical => "critical".to_owned(),
        }
    }

    /// Get numeric value for priority.
    pub fn to_u8(&self) -> (v: u8)
        ensures
            v == priority_level(*self),
    {
        match self {
            TaskPriority::Low => 1,
            TaskPriority::Medium => 5,
            TaskPriority::High => 9,
            TaskPriority::Critical => 10,
        }
    }
}

/// Task execution state.
#[derive(Debug, Clone, Copy, PartialEq, Eq, Structural, Hash)]
pub enum TaskState {
    Pending,
    Executing,
    Completed,
    Failed,
    Cancelled,
}

/// The allowed lifecycle moves: a pending task starts or is cancelled, an executing task
/// completes, fails or is cancelled, and a failed task may be queued again.
pub open spec fn transition_allowed(from: TaskState, to: TaskState) -> bool {
    match (from, to) {
        (TaskState::Pending, TaskState::Executing) => true,
        (TaskState::Pending, TaskState::Cancelled) => true,
        (TaskState::Executing, TaskState::Completed) => true,
        (TaskState::Executing, TaskState::Failed) => true,
        (TaskState::Executing, TaskState::Cancelled) => true,
        (TaskState::Failed, TaskState::Pending) => true,
        _ => false,
    }
}

impl TaskState {
    /// Check if transition to new state is valid.
    pub fn can_transition_to(&self, new_state: &TaskState) -> (r: bool)
        ensures
            r == transition_allowed(*self, *new_state),
    {
        match (self, new_state) {
            (TaskState::Pending, TaskState::Executing) => true,
            (TaskState::Pending, TaskState::Cancelled) => true,
            (TaskState::Executing, TaskState::Completed) => true,
            (TaskState::Executing, TaskState::Failed) => true,
            (TaskState::Executing, TaskState::Cancelled) => true,
            (TaskState::Failed, TaskState::Pending) => true,
            _ => false,
        }
    }
}

/// Where each state can be reached from: only a pending task starts executing; only an
/// executing task completes or fails; a pending or executing task can be cancelled;
/// only a failed task goes back to pending.
pub proof fn lemma_transition_sources(from: TaskState)
    ensures
        transition_allowed(from, TaskState::Executing) <==> from == TaskState::Pending,
        transition_allowed(from, TaskState::Completed) <==> from == TaskState::Executing,
        transition_allowed(from, TaskState::Failed) <==> from == TaskState::Executing,
        transition_allowed(from, TaskState::Cancelled) <==> (from == TaskState::Pending || from
            == TaskState::Executing),
        transition_allowed(from, TaskState::Pending) <==> from == TaskState::Failed,
{
}

/// Completed and cancelled tasks are final: no state follows them.
pub proof fn lemma_terminal_states(to: TaskState)
    ensures
        !transition_allowed(TaskState::Completed, to),
        !transition_allowed(TaskState::Cancelled, to),
{
}

/// No state moves to itself, and the only way back to pending is from a failure.
pub proof fn lemma_transitions_change_state(from: TaskState, to: TaskState)
    ensures
        transition_allowed(from, to) ==> from != to,
        transition_allowed(from, to) && to == TaskState::Pending ==> from == TaskState::Failed,
{
}

/// A task can only finish (complete or fail) after it has been executing.
pub proof fn lemma_finish_requires_execution(from: TaskState)
    ensures
        transition_allowed(from, TaskState::Completed) ==> from == TaskState::Executing,
        transition_allowed(from, TaskState::Failed) ==> from == TaskState::Executing,
{
}

/// The detected gap that a task researches, without the gap's metadata entries.
#[derive(Debug, Clone)]
pub struct TaskGap {
    pub gap_type: GapType,
    pub file_path: String,
    pub line_number: usize,
    pub column_number: Option<usize>,
    pub context: String,
    pub description: String,
    pub confidence_percent: u8,
    pub priority: u8,
}

/// A task gap carries the fields of a detected gap, all but its metadata.
pub open spec fn carries_gap(t: TaskGap, g: GapRecord) -> bool {
    &&& t.gap_type == g.gap_type
    &&& t.file_path@ == g.file_path
    &&& t.line_number == g.line_number
    &&& t.column_number == g.column_number
    &&& t.context@ == g.context
    &&& t.description@ == g.description
    &&& t.confidence_percent == g.confidence_percent
    &&& t.priority == g.priority
}

/// The research query generated for a gap.
pub open spec fn research_query_for(gap_type: GapType, description: Seq<char>, file: Seq<char>) -> Seq<char> {
    match gap_type {
        GapType::TodoComment => "Research implementation approach for TODO: "@ + description + " in file "@ + file,
        GapType::MissingDocumentation => "Generate comprehensive documentation for "@ + description + " in "@ + file,
        GapType::UndocumentedTechnology => "Research technology usage patterns and best practices for "@ + description,
        GapType::ApiDocumentationGap => "Generate API documentation with examples for "@ + description + " in "@ + file,
        GapType::ConfigurationGap => "Document configuration options and usage for "@ + description + " in "@ + file,
    }
}

/// Generate research query from gap information.
pub fn generate_research_query(gap: &TaskGap) -> (q: String)
    ensures
        q@ == research_query_for(gap.gap_type, gap.description@, gap.file_path@),
{
    let mut q = String::new();
    match gap.gap_type {
        GapType::TodoComment => {
            q.append("Research implementation approach for TODO: ");
            q.append(gap.description.as_str());
            q.append(" in file ");
            q.append(gap.file_path.as_str());
        },
        GapType::MissingDocumentation => {
            q.append("Generate comprehensive documentation for ");
            q.append(gap.description.as_str());
            q.append(" in ");
            q.append(gap.file_path.as_str());
        },
        GapType::UndocumentedTechnology => {
            q.append("Research technology usage patterns and best practices for ");
            q.append(gap.description.as_str());
        },
        GapType::ApiDocumentationGap => {
            q.append("Generate API documentation with examples for ");
            q.append(gap.description.as_str());
            q.append(" in ");
            q.append(gap.file_path.as_str());
        },
        GapType::ConfigurationGap => {
            q.append("Document configuration options and usage for ");
            q.append(gap.description.as_str());
            q.append(" in ");
            q.append(gap.file_path.as_str());
        },
    }
    q
}

impl TaskGap {
    /// The fields of a detected gap that a task keeps.
    pub fn from_detected(gap: &DetectedGap) -> (t: TaskGap)
        ensures
            carries_gap(t, gap@),
    {
        TaskGap {
            gap_type: gap.gap_type,
            file_path: gap.file_path.clone(),
            line_number: gap.line_number,
            column_number: gap.column_number,
            context: gap.context.clone(),
            description: gap.description.clone(),
            confidence_percent: gap.confidence_percent,
            priority: gap.priority,
        }
    }

    /// A field-by-field copy.
    pub fn duplicate(&self) -> (r: TaskGap)
        ensures
            r == *self,
    {
        TaskGap {
            gap_type: self.gap_type,
            file_path: self.file_path.clone(),
            line_number: self.line_number,
            column_number: self.column_number,
            context: self.context.clone(),
            description: self.description.clone(),
            confidence_percent: self.confidence_percent,
            priority: self.priority,
        }
    }
}

/// Errors that can occur during background scheduling operations.
#[derive(Debug, Clone, PartialEq, Eq)]
pub enum SchedulerError {
    QueueFull { limit: usize },
    TaskNotFound { task_id: String },
    InvalidStateTransition { from: TaskState, to: TaskState },
    Persistence(String),
    Serialization(String),
    Configuration(String),
    TaskTimeout { task_id: String, timeout_ms: u64 },
    ConcurrencyLimit { current: usize, limit: usize },
    QueueOperation { operation: String, error: String },
}

/// What configurable analysis recorded of the gap a task was made from.
#[derive(Debug, Clone, PartialEq, Eq)]
pub struct TaskEnhancement {
    /// The gap's quality score, as text
    pub quality_score: String,
    /// Whether the gap passed every filter
    pub passed_filters: bool,
    /// How many rules were applied to the gap
    pub applied_rules_count: usize,
}

impl TaskEnhancement {
    /// A field-by-field copy.
    pub fn duplicate(&self) -> (r: TaskEnhancement)
        ensures
            r == *self,
    {
        TaskEnhancement {
            quality_score: self.quality_score.clone(),
            passed_filters: self.passed_filters,
            applied_rules_count: self.applied_rules_count,
        }
    }
}

/// The metadata entries of a task, in the order they were recorded: none for a plain
/// task; the quality score, whether the gap passed the filters and how many rules were
/// applied, for a task made from an enhanced gap.
pub open spec fn task_metadata(e: Option<TaskEnhancement>) -> Seq<(Seq<char>, Seq<char>)> {
    match e {
        None => Seq::empty(),
        Some(e) => seq![
            ("quality_score"@, e.quality_score@),
            ("passed_filters"@, if e.passed_filters { "true"@ } else { "false"@ }),
            ("applied_rules_count"@, decimal(e.applied_rules_count as nat)),
        ],
    }
}

/// Research task for background execution.
#[derive(Debug, Clone)]
pub struct ResearchTask {
    /// Unique task identifier
    pub id: String,
    /// Gap information that triggered this research task
    pub gap: TaskGap,
    /// Task priority for ordering
    pub priority: TaskPriority,
    /// Current execution state
    pub state: TaskState,
    /// Task creation time, nanoseconds since the Unix epoch
    pub created_at_nanos: i64,
    /// Task execution start time
    pub started_at_nanos: Option<i64>,
    /// Task completion time
    pub completed_at_nanos: Option<i64>,
    /// Number of retry attempts
    pub retry_count: u32,
    /// Maximum retry attempts allowed
    pub max_retries: u32,
    /// Task execution timeout in milliseconds
    pub timeout_ms: u64,
    /// What analysis recorded of the task's gap, the task's metadata (see `task_metadata`)
    pub enhancement: Option<TaskEnhancement>,
    /// Research query or prompt for execution
    pub research_query: String,
    /// Expected completion duration estimate in milliseconds
    pub estimated_duration_ms: Option<u64>,
}

/// Nanoseconds in a millisecond.
pub const NANOS_PER_MILLI: u64 = 1_000_000;

/// Research time that a gap type asks for, in seconds.
pub open spec fn base_duration_secs(t: GapType) -> nat {
    match t {
        GapType::TodoComment => 180,
        GapType::MissingDocumentation => 120,
        GapType::UndocumentedTechnology => 300,
        GapType::ApiDocumentationGap => 240,
        GapType::ConfigurationGap => 150,
    }
}

/// How much a priority stretches the research time, in tenths.
pub open spec fn priority_factor_tenths(p: TaskPriority) -> nat {
    match p {
        TaskPriority::Low => 8,
        TaskPriority::Medium => 10,
        TaskPriority::High => 12,
        TaskPriority::Critical => 15,
    }
}

/// Estimated research time in milliseconds: the gap type's base time, scaled by
/// `2 - confidence` (confidence in hundredths, so less confidence means more time)
/// and by the priority factor.
pub open spec fn estimated_duration_for(gap_type: GapType, confidence_percent: u8, priority: TaskPriority) -> int {
    base_duration_secs(gap_type) * (200 - confidence_percent) * priority_factor_tenths(priority)
}

/// The task with its estimate made from its own gap and priority.
pub open spec fn estimated(task: ResearchTask) -> ResearchTask {
    ResearchTask {
        estimated_duration_ms: Some(
            estimated_duration_for(task.gap.gap_type, task.gap.confidence_percent, task.priority) as u64,
        ),
        ..task
    }
}

/// The task as the scheduler queues it: an estimate it already has is kept,
/// otherwise one is made.
pub open spec fn with_estimate(task: ResearchTask) -> ResearchTask {
    if task.estimated_duration_ms is Some {
        task
    } else {
        estimated(task)
    }
}

/// A task is queued with a duration estimate: the one it came with, or else the one made
/// from its gap type, its gap's confidence and its priority; nothing else of it changes.
pub proof fn lemma_queued_with_estimate(task: ResearchTask)
    ensures
        with_estimate(task).estimated_duration_ms is Some,
        task.estimated_duration_ms is Some ==> with_estimate(task) == task,
        task.estimated_duration_ms is None ==> with_estimate(task).estimated_duration_ms == Some(
            estimated_duration_for(task.gap.gap_type, task.gap.confidence_percent, task.priority) as u64,
        ),
        with_estimate(task) == (ResearchTask { estimated_duration_ms: with_estimate(task).estimated_duration_ms, ..task }),
{
}

/// Whether the task can be queued as it is: it has an estimate, or one can be made
/// (a confidence above 2 would make the time negative).
pub open spec fn can_estimate(task: ResearchTask) -> bool {
    task.estimated_duration_ms is Some || task.gap.confidence_percent <= 200
}

impl ResearchTask {
    /// Create a new research task from a detected gap, with the given identity and
    /// creation time.
    pub fn from_gap_at(gap: TaskGap, priority: TaskPriority, id: String, created_at_nanos: i64) -> (t: ResearchTask)
        ensures
            t.id == id,
            t.gap == gap,
            t.priority == priority,
            t.state == TaskState::Pending,
            t.created_at_nanos == created_at_nanos,
            t.started_at_nanos.is_none(),
            t.completed_at_nanos.is_none(),
            t.retry_count == 0,
            t.max_retries == 3,
            t.timeout_ms == 300_000,
            t.research_query@ == research_query_for(gap.gap_type, gap.description@, gap.file_path@),
            t.estimated_duration_ms.is_none(),
            t.enhancement.is_none(),
    {
        let research_query = generate_research_query(&gap);
        ResearchTask {
            id,
            gap,
            priority,
            state: TaskState::Pending,
            created_at_nanos,
            started_at_nanos: None,
            completed_at_nanos: None,
            retry_count: 0,
            max_retries: 3,
            timeout_ms: 300_000,
            enhancement: None,
            research_query,
            estimated_duration_ms: None,
        }
    }

    /// Create a new research task from a detected gap, with a fresh random identifier
    /// and the current time.
    pub fn from_gap(gap: DetectedGap, priority: TaskPriority) -> (t: ResearchTask)
        ensures
            is_hyphenated_uuid(t.id@),
            carries_gap(t.gap, gap@),
            t.priority == priority,
            t.state == TaskState::Pending,
            t.started_at_nanos.is_none(),
            t.completed_at_nanos.is_none(),
            t.retry_count == 0,
            t.max_retries == 3,
            t.timeout_ms == 300_000,
            t.research_query@ == research_query_for(gap.gap_type, gap.description@, gap.file_path@),
            t.estimated_duration_ms.is_none(),
            t.enhancement.is_none(),
    {
        let id = new_uuid_v4();
        let now = utc_now_nanos();
        Self::from_gap_at(TaskGap::from_detected(&gap), priority, id, now)
    }

    /// Create a research task from a gap whose priority was recomputed by configurable
    /// analysis: the task priority follows the enhanced priority, the task records what
    /// analysis found of the gap, and a custom timeout, when given, replaces the default
    /// one.
    pub fn from_enhanced_gap(
        gap: DetectedGap,
        enhanced_priority: u8,
        enhancement: TaskEnhancement,
        custom_timeout_ms: Option<u64>,
    ) -> (t: ResearchTask)
        ensures
            carries_gap(t.gap, gap@),
            is_hyphenated_uuid(t.id@),
            t.enhancement == Some(enhancement),
            t.started_at_nanos.is_none(),
            t.completed_at_nanos.is_none(),
            t.estimated_duration_ms.is_none(),
            t.priority == priority_of_level(enhanced_priority),
            t.state == TaskState::Pending,
            t.retry_count == 0,
            t.max_retries == 3,
            t.timeout_ms == match custom_timeout_ms {
                Some(ms) => ms,
                None => 300_000,
            },
            t.research_query@ == research_query_for(gap.gap_type, gap.description@, gap.file_path@),
    {
        let priority = TaskPriority::from_u8(enhanced_priority);
        let mut task = Self::from_gap(gap, priority);
        task.enhancement = Some(enhancement);
        match custom_timeout_ms {
            Some(ms) => task.timeout_ms = ms,
            None => {},
        }
        task
    }

    /// Estimate the task's duration from its gap type, the gap's confidence and the task
    /// priority (see `estimated_duration_for`).
    pub fn estimate_duration(&mut self)
        requires
            old(self).gap.confidence_percent <= 200,
        ensures
            *final(self) == estimated(*old(self)),
            0 <= estimated_duration_for(old(self).gap.gap_type, old(self).gap.confidence_percent, old(self).priority)
                <= 900_000,
    {
        let base: u64 = match self.gap.gap_type {
            GapType::TodoComment => 180,
            GapType::MissingDocumentation => 120,
            GapType::UndocumentedTechnology => 300,
            GapType::ApiDocumentationGap => 240,
            GapType::ConfigurationGap => 150,
        };
        let factor: u64 = match self.priority {
            TaskPriority::Low => 8,
            TaskPriority::Medium => 10,
            TaskPriority::High => 12,
            TaskPriority::Critical => 15,
        };
        let stretch: u64 = 200 - self.gap.confidence_percent as u64;
        assert(base * stretch * factor <= 900_000 && base * stretch <= 60_000) by (nonlinear_arith)
            requires
                base <= 300,
                stretch <= 200,
                factor <= 15,
        ;
        let ms = base * stretch * factor;
        self.estimated_duration_ms = Some(ms);
    }

    /// Whether the task, started at `started_at_nanos`, has run longer than its timeout
    /// at time `now_nanos` (a start in the future counts as no time elapsed).
    pub open spec fn timed_out_at(&self, now_nanos: i64) -> bool {
        match self.started_at_nanos {
            Some(start) => {
                let elapsed: int = if now_nanos >= start { now_nanos - start } else { 0 };
                elapsed > self.timeout_ms * NANOS_PER_MILLI
            },
            None => false,
        }
    }

    /// Check if the task has timed out at the given time.
    pub fn is_timed_out_at(&self, now_nanos: i64) -> (r: bool)
        ensures
            r == self.timed_out_at(now_nanos),
    {
        match self.started_at_nanos {
            Some(start) => {
                let elapsed: i128 = if now_nanos >= start {
                    now_nanos as i128 - start as i128
                } else {
                    0
                };
                let t = self.timeout_ms as i128;
                assert(t * 1_000_000 <= 18_446_744_073_709_551_615 * 1_000_000) by (nonlinear_arith)
                    requires
                        0 <= t <= 18_446_744_073_709_551_615,
                ;
                elapsed > t * 1_000_000
            },
            None => false,
        }
    }

    /// Check if the task has timed out now: as `is_timed_out_at` does at the time the
    /// UTC clock reads, which is not stated.
    pub fn is_timed_out(&self) -> (r: bool)
        ensures
            self.started_at_nanos.is_none() ==> !r,
            exists|now: i64| r == self.timed_out_at(now),
    {
        let now = utc_now_nanos();
        let r = self.is_timed_out_at(now);
        assert(r == self.timed_out_at(now));
        r
    }

    /// The task's metadata entries, in the order they were recorded.
    pub fn metadata(&self) -> (m: Vec<(String, String)>)
        ensures
            metadata_view(m@) == task_metadata(self.enhancement),
    {
        let mut m: Vec<(String, String)> = Vec::new();
        match &self.enhancement {
            Some(e) => {
                m.push(("quality_score".to_owned(), e.quality_score.clone()));
                m.push((
                    "passed_filters".to_owned(),
                    if e.passed_filters { "true".to_owned() } else { "false".to_owned() },
                ));
                m.push(("applied_rules_count".to_owned(), decimal_string(e.applied_rules_count as u64)));
                assert(metadata_view(m@) =~= task_metadata(self.enhancement));
            },
            None => {
                assert(metadata_view(m@) =~= task_metadata(self.enhancement));
            },
        }
        m
    }

    /// Check if task can be retried.
    pub fn can_retry(&self) -> (r: bool)
        ensures
            r == (self.retry_count < self.max_retries && self.state == TaskState::Failed),
    {
        self.retry_count < self.max_retries && self.state == TaskState::Failed
    }

    /// A field-by-field copy.
    pub fn duplicate(&self) -> (r: ResearchTask)
        ensures
            r == *self,
    {
        ResearchTask {
            id: self.id.clone(),
            gap: self.gap.duplicate(),
            priority: self.priority,
            state: self.state,
            created_at_nanos: self.created_at_nanos,
            started_at_nanos: self.started_at_nanos,
            completed_at_nanos: self.completed_at_nanos,
            retry_count: self.retry_count,
            max_retries: self.max_retries,
            timeout_ms: self.timeout_ms,
            enhancement: match &self.enhancement {
                Some(e) => Some(e.duplicate()),
                None => None,
            },
            research_query: self.research_query.clone(),
            estimated_duration_ms: self.estimated_duration_ms,
        }
    }
}

/// `a` leaves the queue before `b`: higher priority first, then the older task.
pub open spec fn outranks(a: ResearchTask, b: ResearchTask) -> bool {
    priority_level(a.priority) > priority_level(b.priority) || (priority_level(a.priority)
        == priority_level(b.priority) && a.created_at_nanos < b.created_at_nanos)
}

/// The position of the task that leaves first: the earliest position holding a task
/// that no other task outranks.
pub open spec fn best_index(s: Seq<ResearchTask>) -> int
    decreases s.len(),
{
    if s.len() <= 1 {
        0
    } else {
        let j = best_index(s.drop_last());
        if outranks(s.last(), s[j]) {
            s.len() - 1
        } else {
            j
        }
    }
}

/// `best_index` is a position of the sequence and no task there is outranked.
pub proof fn lemma_best_index_is_maximal(s: Seq<ResearchTask>)
    requires
        s.len() > 0,
    ensures
        0 <= best_index(s) < s.len(),
        forall|k: int| 0 <= k < s.len() ==> !outranks(#[trigger] s[k], s[best_index(s)]),
    decreases s.len(),
{
    if s.len() > 1 {
        let t = s.drop_last();
        lemma_best_index_is_maximal(t);
        let j = best_index(t);
        assert forall|k: int| 0 <= k < s.len() implies !outranks(#[trigger] s[k], s[best_index(s)]) by {
            if k < s.len() - 1 {
                assert(s[k] == t[k]);
                assert(!outranks(t[k], t[j]));
            }
        }
    }
}

/// Configuration for background scheduler.
#[derive(Debug, Clone)]
pub struct BackgroundSchedulerConfig {
    /// Path to queue persistence file
    pub queue_file: String,
    /// Maximum number of tasks in queue
    pub max_queue_size: usize,
    /// How often to persist queue state, in milliseconds
    pub persistence_interval_ms: u64,
    /// Maximum concurrent executing tasks
    pub max_concurrent_tasks: usize,
    /// Default task timeout in milliseconds
    pub default_timeout_ms: u64,
}

impl Default for BackgroundSchedulerConfig {
    fn default() -> (c: BackgroundSchedulerConfig)
        ensures
            c.queue_file@ == "task_queue.json"@,
            c.max_queue_size == 10000,
            c.persistence_interval_ms == 30_000,
            c.max_concurrent_tasks == 5,
            c.default_timeout_ms == 300_000,
    {
        BackgroundSchedulerConfig {
            queue_file: "task_queue.json".to_owned(),
            max_queue_size: 10000,
            persistence_interval_ms: 30_000,
            max_concurrent_tasks: 5,
            default_timeout_ms: 300_000,
        }
    }
}

/// The pending tasks of the scheduler, bounded by the configured queue size and
/// handed out highest priority first, oldest first among equals.
#[derive(Debug)]
pub struct TaskQueue {
    tasks: Vec<ResearchTask>,
    max_queue_size: usize,
}

impl TaskQueue {
    /// The waiting tasks, in arrival order.
    pub closed spec fn tasks(&self) -> Seq<ResearchTask> {
        self.tasks@
    }

    /// The most tasks the queue holds.
    pub closed spec fn limit(&self) -> nat {
        self.max_queue_size as nat
    }

    /// The task that leaves next, if any.
    pub open spec fn next_task(&self) -> Option<ResearchTask> {
        if self.tasks().len() == 0 {
            None
        } else {
            Some(self.tasks()[best_index(self.tasks())])
        }
    }

    /// An empty queue holding at most `max_queue_size` tasks.
    pub fn new(max_queue_size: usize) -> (q: TaskQueue)
        ensures
            q.tasks() == Seq::<ResearchTask>::empty(),
            q.limit() == max_queue_size,
    {
        TaskQueue { tasks: Vec::new(), max_queue_size }
    }

    /// Current queue size.
    pub fn queue_size(&self) -> (n: usize)
        ensures
            n == self.tasks().len(),
    {
        self.tasks.len()
    }

    /// Add a task, refused with `QueueFull` when the queue already holds its limit.
    pub fn enqueue(&mut self, task: ResearchTask) -> (r: Result<(), SchedulerError>)
        ensures
            final(self).limit() == old(self).limit(),
            old(self).tasks().len() >= old(self).limit() ==> r == Err::<(), SchedulerError>(
                SchedulerError::QueueFull { limit: old(self).limit() as usize },
            ) && final(self).tasks() == old(self).tasks(),
            old(self).tasks().len() < old(self).limit() ==> r is Ok && final(self).tasks()
                == old(self).tasks().push(task),
    {
        if self.tasks.len() >= self.max_queue_size {
            return Err(SchedulerError::QueueFull { limit: self.max_queue_size });
        }
        self.tasks.push(task);
        Ok(())
    }

    /// Position of the task that leaves next.
    fn best_position(&self) -> (i: usize)
        requires
            self.tasks().len() > 0,
        ensures
            i == best_index(self.tasks()),
            i < self.tasks().len(),
    {
        let mut best: usize = 0;
        let mut i: usize = 1;
        while i < self.tasks.len()
            invariant
                1 <= i <= self.tasks@.len(),
                best == best_index(self.tasks@.take(i as int)),
            decreases self.tasks.len() - i,
        {
            let ghost s = self.tasks@.take(i + 1);
            assert(s.drop_last() =~= self.tasks@.take(i as int));
            proof {
                lemma_best_index_is_maximal(self.tasks@.take(i as int));
            }
            let a = &self.tasks[i];
            let b = &self.tasks[best];
            let la = a.priority.to_u8();
            let lb = b.priority.to_u8();
            if la > lb || (la == lb && a.created_at_nanos < b.created_at_nanos) {
                best = i;
            }
            i = i + 1;
        }
        assert(self.tasks@.take(self.tasks@.len() as int) =~= self.tasks@);
        proof {
            lemma_best_index_is_maximal(self.tasks@);
        }
        best
    }

    /// Remove and return the highest priority task from the queue.
    pub fn dequeue(&mut self) -> (t: Option<ResearchTask>)
        ensures
            final(self).limit() == old(self).limit(),
            t == old(self).next_task(),
            old(self).tasks().len() == 0 ==> final(self).tasks() == old(self).tasks(),
            old(self).tasks().len() > 0 ==> final(self).tasks() == old(self).tasks().remove(
                best_index(old(self).tasks()),
            ),
    {
        if self.tasks.len() == 0 {
            return None;
        }
        let i = self.best_position();
        Some(self.tasks.remove(i))
    }

    /// Peek at the highest priority task without removing it.
    pub fn peek(&self) -> (t: Option<ResearchTask>)
        ensures
            t == self.next_task(),
    {
        if self.tasks.len() == 0 {
            return None;
        }
        let i = self.best_position();
        Some(self.tasks[i].duplicate())
    }

    /// Remove every waiting task.
    pub fn clear(&mut self)
        ensures
            final(self).tasks() == Seq::<ResearchTask>::empty(),
            final(self).limit() == old(self).limit(),
    {
        self.tasks.clear();
    }

    /// Put back a task read from storage; the size limit applies to new arrivals only.
    pub fn restore(&mut self, task: ResearchTask)
        ensures
            final(self).tasks() == old(self).tasks().push(task),
            final(self).limit() == old(self).limit(),
    {
        self.tasks.push(task);
    }

    /// The earliest waiting task with identifier `id`.
    pub fn find_by_id(&self, id: &str) -> (r: Option<ResearchTask>)
        ensures
            r == first_with_id(self.tasks(), id@),
    {
        let mut i: usize = 0;
        while i < self.tasks.len()
            invariant
                i <= self.tasks@.len(),
                first_with_id(self.tasks@.take(i as int), id@) is None,
            decreases self.tasks.len() - i,
        {
            assert(self.tasks@.take(i + 1).drop_last() =~= self.tasks@.take(i as int));
            if crate::text::str_equal(self.tasks[i].id.as_str(), id) {
                proof { lemma_first_with_id_prefix(self.tasks@, i as int + 1, id@); }
                return Some(self.tasks[i].duplicate());
            }
            i = i + 1;
        }
        assert(self.tasks@.take(self.tasks@.len() as int) =~= self.tasks@);
        None
    }

    /// A copy of the waiting tasks, in arrival order.
    pub fn snapshot(&self) -> (r: Vec<ResearchTask>)
        ensures
            r@ == self.tasks(),
    {
        let mut r: Vec<ResearchTask> = Vec::new();
        let mut i: usize = 0;
        while i < self.tasks.len()
            invariant
                i <= self.tasks@.len(),
                r@ == self.tasks@.take(i as int),
            decreases self.tasks.len() - i,
        {
            r.push(self.tasks[i].duplicate());
            assert(r@ =~= self.tasks@.take(i + 1));
            i = i + 1;
        }
        assert(self.tasks@.take(self.tasks@.len() as int) =~= self.tasks@);
        r
    }
}

/// The first task of `s`, in order, whose identifier is `id`.
pub open spec fn first_with_id(s: Seq<ResearchTask>, id: Seq<char>) -> Option<ResearchTask>
    decreases s.len(),
{
    if s.len() == 0 {
        None
    } else {
        match first_with_id(s.drop_last(), id) {
            Some(t) => Some(t),
            None => if s.last().id@ == id { Some(s.last()) } else { None },
        }
    }
}

/// A match found within the first `n` tasks is the match of the whole sequence.
pub proof fn lemma_first_with_id_prefix(s: Seq<ResearchTask>, n: int, id: Seq<char>)
    requires
        0 <= n <= s.len(),
        first_with_id(s.take(n), id) is Some,
    ensures
        first_with_id(s, id) == first_with_id(s.take(n), id),
    decreases s.len() - n,
{
    if n < s.len() {
        assert(s.take(n + 1).drop_last() =~= s.take(n));
        lemma_first_with_id_prefix(s, n + 1, id);
    } else {
        assert(s.take(n) =~= s);
    }
}

/// `first_with_id` finds a task of the sequence with that identifier, and finds one
/// whenever the sequence holds such a task.
pub proof fn lemma_first_with_id_found(s: Seq<ResearchTask>, id: Seq<char>)
    ensures
        first_with_id(s, id) matches Some(t) ==> s.contains(t) && t.id@ == id,
        (exists|k: int| 0 <= k < s.len() && s[k].id@ == id) <==> first_with_id(s, id) is Some,
    decreases s.len(),
{
    if s.len() > 0 {
        let t = s.drop_last();
        lemma_first_with_id_found(t, id);
        if first_with_id(t, id) is Some {
            let k = choose|k: int| 0 <= k < t.len() && t[k].id@ == id;
            assert(s[k] == t[k]);
            let x = first_with_id(t, id)->0;
            let j = choose|j: int| 0 <= j < t.len() && t[j] == x;
            assert(s[j] == x);
        } else {
            assert(s[s.len() - 1] == s.last());
            if exists|k: int| 0 <= k < s.len() && s[k].id@ == id {
                let k = choose|k: int| 0 <= k < s.len() && s[k].id@ == id;
                if k < s.len() - 1 {
                    assert(t[k] == s[k]);
                }
            }
        }
    }
}

/// The task handed out next is outranked by no waiting task: higher priorities leave
/// first, and among equal priorities the oldest leaves first.
pub proof fn lemma_next_task_is_highest(q: &TaskQueue)
    requires
        q.tasks().len() > 0,
    ensures
        q.next_task() matches Some(t) && forall|k: int|
            0 <= k < q.tasks().len() ==> !outranks(#[trigger] q.tasks()[k], t),
{
    lemma_best_index_is_maximal(q.tasks());
}

/// Dequeuing removes exactly one task, the one handed out, and keeps all the others.
pub proof fn lemma_dequeue_removes_one(s: Seq<ResearchTask>)
    requires
        s.len() > 0,
    ensures
        s.remove(best_index(s)).len() + 1 == s.len(),
        s.to_multiset().contains(s[best_index(s)]),
        s.remove(best_index(s)).to_multiset() == s.to_multiset().remove(s[best_index(s)]),
{
    lemma_best_index_is_maximal(s);
    let i = best_index(s);
    vstd::seq_lib::to_multiset_remove(s, i);
    vstd::seq_lib::to_multiset_contains(s, s[i]);
    assert(s.contains(s[i]));
}

/// Tasks keyed by identifier, each identifier once.
#[derive(Debug)]
pub struct TaskTable {
    tasks: Vec<ResearchTask>,
}

impl TaskTable {
    /// No identifier occurs twice.
    pub closed spec fn wf(&self) -> bool {
        forall|i: int, j: int|
            0 <= i < j < self.tasks@.len() ==> #[trigger] self.tasks@[i].id@ != #[trigger] self.tasks@[j].id@
    }

    /// The tasks by identifier.
    pub closed spec fn view_map(&self) -> Map<Seq<char>, ResearchTask> {
        Map::new(
            |id: Seq<char>| exists|i: int| 0 <= i < self.tasks@.len() && self.tasks@[i].id@ == id,
            |id: Seq<char>| self.tasks@[choose|i: int| 0 <= i < self.tasks@.len() && self.tasks@[i].id@ == id],
        )
    }

    /// Number of tasks held.
    pub closed spec fn count(&self) -> nat {
        self.tasks@.len()
    }

    /// An empty table.
    pub fn new() -> (t: TaskTable)
        ensures
            t.wf(),
            t.view_map() == Map::<Seq<char>, ResearchTask>::empty(),
            t.count() == 0,
    {
        let t = TaskTable { tasks: Vec::new() };
        assert(t.view_map() =~= Map::<Seq<char>, ResearchTask>::empty());
        t
    }

    /// Position of the task with identifier `id`.
    fn find(&self, id: &str) -> (r: Option<usize>)
        ensures
            match r {
                Some(i) => i < self.tasks@.len() && self.tasks@[i as int].id@ == id@,
                None => forall|i: int| 0 <= i < self.tasks@.len() ==> self.tasks@[i].id@ != id@,
            },
    {
        let mut i: usize = 0;
        while i < self.tasks.len()
            invariant
                i <= self.tasks@.len(),
                forall|k: int| 0 <= k < i ==> self.tasks@[k].id@ != id@,
            decreases self.tasks.len() - i,
        {
            if crate::text::str_equal(self.tasks[i].id.as_str(), id) {
                return Some(i);
            }
            i = i + 1;
        }
        None
    }

    proof fn lemma_index_of(&self, i: int)
        requires
            self.wf(),
            0 <= i < self.tasks@.len(),
        ensures
            self.view_map().contains_key(self.tasks@[i].id@),
            self.view_map()[self.tasks@[i].id@] == self.tasks@[i],
    {
        let id = self.tasks@[i].id@;
        let j = choose|j: int| 0 <= j < self.tasks@.len() && self.tasks@[j].id@ == id;
        if j != i {
            if j < i {
                assert(self.tasks@[j].id@ != self.tasks@[i].id@);
            } else {
                assert(self.tasks@[i].id@ != self.tasks@[j].id@);
            }
        }
    }

    /// The task with identifier `id`, if held.
    pub fn get(&self, id: &str) -> (r: Option<ResearchTask>)
        requires
            self.wf(),
        ensures
            match r {
                Some(t) => self.view_map().contains_key(id@) && self.view_map()[id@] == t,
                None => !self.view_map().contains_key(id@),
            },
    {
        match self.find(id) {
            Some(i) => {
                proof { self.lemma_index_of(i as int); }
                Some(self.tasks[i].duplicate())
            },
            None => None,
        }
    }

    /// Store a task under its identifier, replacing any task held under it.
    pub fn insert(&mut self, task: ResearchTask)
        requires
            old(self).wf(),
        ensures
            final(self).wf(),
            final(self).view_map() == old(self).view_map().insert(task.id@, task),
    {
        let ghost m0 = old(self).view_map();
        let ghost tid = task.id@;
        match self.find(task.id.as_str()) {
            Some(i) => {
                self.tasks.set(i, task);
                proof {
                    assert forall|a: int, b: int| 0 <= a < b < self.tasks@.len() implies #[trigger] self.tasks@[a].id@ != #[trigger] self.tasks@[b].id@ by {
                        assert(old(self).tasks@[a].id@ != old(self).tasks@[b].id@);
                    }
                    assert forall|id: Seq<char>| #[trigger] self.view_map().contains_key(id) == m0.insert(tid, task).contains_key(id) by {
                        if m0.contains_key(id) {
                            let k = choose|k: int| 0 <= k < old(self).tasks@.len() && old(self).tasks@[k].id@ == id;
                            assert(self.tasks@[k].id@ == id);
                        }
                        if self.view_map().contains_key(id) {
                            let k = choose|k: int| 0 <= k < self.tasks@.len() && self.tasks@[k].id@ == id;
                            assert(old(self).tasks@[k].id@ == id);
                        }
                    }
                    assert forall|id: Seq<char>| #[trigger] self.view_map().contains_key(id) implies self.view_map()[id] == m0.insert(tid, task)[id] by {
                        let k = choose|k: int| 0 <= k < self.tasks@.len() && self.tasks@[k].id@ == id;
                        self.lemma_index_of(k);
                        if id != tid {
                            assert(k != i);
                            old(self).lemma_index_of(k);
                        }
                    }
                    assert(self.view_map() =~= m0.insert(tid, task));
                }
            },
            None => {
                self.tasks.push(task);
                proof {
                    let n = old(self).tasks@.len() as int;
                    assert forall|a: int, b: int| 0 <= a < b < self.tasks@.len() implies #[trigger] self.tasks@[a].id@ != #[trigger] self.tasks@[b].id@ by {
                        if b < n {
                            assert(old(self).tasks@[a].id@ != old(self).tasks@[b].id@);
                        }
                    }
                    assert forall|id: Seq<char>| #[trigger] self.view_map().contains_key(id) == m0.insert(tid, task).contains_key(id) by {
                        if m0.contains_key(id) {
                            let k = choose|k: int| 0 <= k < old(self).tasks@.len() && old(self).tasks@[k].id@ == id;
                            assert(self.tasks@[k].id@ == id);
                        }
                        if id == tid {
                            assert(self.tasks@[n].id@ == id);
                        }
                        if self.view_map().contains_key(id) && id != tid {
                            let k = choose|k: int| 0 <= k < self.tasks@.len() && self.tasks@[k].id@ == id;
                            assert(k < n);
                            assert(old(self).tasks@[k].id@ == id);
                        }
                    }
                    assert forall|id: Seq<char>| #[trigger] self.view_map().contains_key(id) implies self.view_map()[id] == m0.insert(tid, task)[id] by {
                        let k = choose|k: int| 0 <= k < self.tasks@.len() && self.tasks@[k].id@ == id;
                        self.lemma_index_of(k);
                        if id != tid {
                            assert(k < n);
                            assert(old(self).tasks@[k] == self.tasks@[k]);
                            old(self).lemma_index_of(k);
                        }
                    }
                    assert(self.view_map() =~= m0.insert(tid, task));
                }
            },
        }
    }

    /// Remove the task with identifier `id`, handing it back if it was held.
    pub fn remove(&mut self, id: &str) -> (r: Option<ResearchTask>)
        requires
            old(self).wf(),
        ensures
            final(self).wf(),
            final(self).view_map() == old(self).view_map().remove(id@),
            match r {
                Some(t) => old(self).view_map().contains_key(id@) && old(self).view_map()[id@] == t,
                None => !old(self).view_map().contains_key(id@),
            },
    {
        let ghost m0 = old(self).view_map();
        match self.find(id) {
            Some(i) => {
                proof { old(self).lemma_index_of(i as int); }
                let t = self.tasks.remove(i);
                proof {
                    let o = old(self).tasks@;
                    let s = self.tasks@;
                    assert forall|k: int| 0 <= k < s.len() implies #[trigger] s[k] == (if k < i { o[k] } else { o[k + 1] }) by {}
                    assert forall|a: int, b: int| 0 <= a < b < s.len() implies #[trigger] s[a].id@ != #[trigger] s[b].id@ by {
                        let a0 = if a < i { a } else { a + 1 };
                        let b0 = if b < i { b } else { b + 1 };
                        assert(s[a] == o[a0]);
                        assert(s[b] == o[b0]);
                        assert(o[a0].id@ != o[b0].id@);
                    }
                    assert forall|key: Seq<char>| #[trigger] self.view_map().contains_key(key) == m0.remove(id@).contains_key(key) by {
                        if m0.contains_key(key) && key != id@ {
                            let k = choose|k: int| 0 <= k < o.len() && o[k].id@ == key;
                            assert(k != i);
                            let k2 = if k < i { k } else { k - 1 };
                            assert(s[k2] == o[k]);
                        }
                        if self.view_map().contains_key(key) {
                            let k = choose|k: int| 0 <= k < s.len() && s[k].id@ == key;
                            let k0 = if k < i { k } else { k + 1 };
                            assert(s[k] == o[k0]);
                            if key == id@ {
                                if k0 < i {
                                    assert(o[k0].id@ != o[i as int].id@);
                                } else {
                                    assert(o[i as int].id@ != o[k0].id@);
                                }
                            }
                        }
                    }
                    assert forall|key: Seq<char>| #[trigger] self.view_map().contains_key(key) implies self.view_map()[key] == m0.remove(id@)[key] by {
                        let k = choose|k: int| 0 <= k < s.len() && s[k].id@ == key;
                        self.lemma_index_of(k);
                        let k0 = if k < i { k } else { k + 1 };
                        assert(s[k] == o[k0]);
                        old(self).lemma_index_of(k0);
                    }
                    assert(self.view_map() =~= m0.remove(id@));
                }
                Some(t)
            },
            None => {
                proof {
                    assert(!m0.contains_key(id@));
                    assert(m0.remove(id@) =~= m0);
                }
                None
            },
        }
    }

    /// Number of tasks held.
    pub fn len(&self) -> (n: usize)
        ensures
            n == self.count(),
    {
        self.tasks.len()
    }

    /// The held tasks, in the order they were first stored.
    pub closed spec fn entries(&self) -> Seq<ResearchTask> {
        self.tasks@
    }

    /// The entries are the table's tasks, each stored under its own identifier, and
    /// every identifier of the table is that of an entry.
    pub proof fn lemma_entries(&self)
        requires
            self.wf(),
        ensures
            self.entries().len() == self.count(),
            forall|k: int| 0 <= k < self.entries().len() ==> self.view_map().contains_key(#[trigger] self.entries()[k].id@)
                && self.view_map()[self.entries()[k].id@] == self.entries()[k],
            forall|id: Seq<char>| #[trigger] self.view_map().contains_key(id) ==> exists|k: int|
                0 <= k < self.entries().len() && self.entries()[k].id@ == id,
    {
        assert forall|k: int| 0 <= k < self.entries().len() implies self.view_map().contains_key(#[trigger] self.entries()[k].id@)
            && self.view_map()[self.entries()[k].id@] == self.entries()[k] by {
            self.lemma_index_of(k);
        }
    }

    /// The table holds its entries by identifier, and no identifier twice.
    pub proof fn lemma_view_is_entries(&self)
        requires
            self.wf(),
        ensures
            ids_distinct(self.entries()),
            self.view_map() == tasks_by_id(self.entries()),
    {
        assert(self.view_map() =~= tasks_by_id(self.entries()));
    }

    /// A copy of the held tasks, in the order of `entries`.
    pub fn snapshot(&self) -> (r: Vec<ResearchTask>)
        ensures
            r@ == self.entries(),
    {
        let mut r: Vec<ResearchTask> = Vec::new();
        let mut i: usize = 0;
        while i < self.tasks.len()
            invariant
                i <= self.tasks@.len(),
                r@ == self.tasks@.take(i as int),
            decreases self.tasks.len() - i,
        {
            r.push(self.tasks[i].duplicate());
            assert(r@ =~= self.tasks@.take(i + 1));
            i = i + 1;
        }
        assert(self.tasks@.take(self.tasks@.len() as int) =~= self.tasks@);
        r
    }

    /// The held tasks that have run past their timeout at `now_nanos`, in the order of
    /// `entries`.
    pub fn timed_out_at(&self, now_nanos: i64) -> (r: Vec<ResearchTask>)
        ensures
            r@ == self.entries().filter(|t: ResearchTask| t.timed_out_at(now_nanos)),
    {
        let ghost pred = |t: ResearchTask| t.timed_out_at(now_nanos);
        let mut r: Vec<ResearchTask> = Vec::new();
        let mut i: usize = 0;
        while i < self.tasks.len()
            invariant
                i <= self.tasks@.len(),
                pred == (|t: ResearchTask| t.timed_out_at(now_nanos)),
                r@ == self.tasks@.take(i as int).filter(pred),
            decreases self.tasks.len() - i,
        {
            let ghost s = self.tasks@.take(i + 1);
            assert(s.drop_last() =~= self.tasks@.take(i as int));
            proof { self.tasks@.take(i as int).lemma_filter_push(self.tasks@[i as int], pred); }
            assert(s =~= self.tasks@.take(i as int).push(self.tasks@[i as int]));
            if self.tasks[i].is_timed_out_at(now_nanos) {
                r.push(self.tasks[i].duplicate());
            }
            i = i + 1;
        }
        assert(self.tasks@.take(self.tasks@.len() as int) =~= self.tasks@);
        r
    }

    /// Remove every task.
    pub fn clear(&mut self)
        ensures
            final(self).wf(),
            final(self).view_map() == Map::<Seq<char>, ResearchTask>::empty(),
            final(self).count() == 0,
    {
        self.tasks.clear();
        assert(self.view_map() =~= Map::<Seq<char>, ResearchTask>::empty());
    }
}

/// Reading back what was stored: after storing a task, looking its identifier up gives
/// that task; after removing an identifier, it is no longer found, and other
/// identifiers are untouched.
pub proof fn lemma_table_read_after_write(m: Map<Seq<char>, ResearchTask>, t: ResearchTask, other: Seq<char>)
    requires
        other != t.id@,
    ensures
        m.insert(t.id@, t).contains_key(t.id@) && m.insert(t.id@, t)[t.id@] == t,
        !m.remove(t.id@).contains_key(t.id@),
        m.insert(t.id@, t).contains_key(other) == m.contains_key(other),
        m.contains_key(other) ==> m.insert(t.id@, t)[other] == m[other] && m.remove(t.id@)[other] == m[other],
{
}

} // verus!

verus! {

/// Counts reported by the scheduler.
#[derive(Debug, Clone, Copy, PartialEq, Eq, Structural)]
pub struct QueueMetrics {
    pub total_tasks_processed: u64,
    pub current_queue_size: usize,
    pub executing_tasks: usize,
    pub completed_tasks: u64,
    pub failed_tasks: u64,
    /// Average processing time in milliseconds
    pub average_processing_time_ms: u64,
}

/// The map `m` after storing each task of `s` under its identifier, in order.
pub open spec fn insert_all(m: Map<Seq<char>, ResearchTask>, s: Seq<ResearchTask>) -> Map<Seq<char>, ResearchTask>
    decreases s.len(),
{
    if s.len() == 0 {
        m
    } else {
        insert_all(m, s.drop_last()).insert(s.last().id@, s.last())
    }
}

/// The tasks of `s` by identifier.
pub open spec fn tasks_by_id(s: Seq<ResearchTask>) -> Map<Seq<char>, ResearchTask> {
    Map::new(
        |id: Seq<char>| exists|i: int| 0 <= i < s.len() && s[i].id@ == id,
        |id: Seq<char>| s[choose|i: int| 0 <= i < s.len() && s[i].id@ == id],
    )
}

/// No identifier occurs twice in `s`.
pub open spec fn ids_distinct(s: Seq<ResearchTask>) -> bool {
    forall|i: int, j: int| 0 <= i < j < s.len() ==> #[trigger] s[i].id@ != #[trigger] s[j].id@
}

/// Storing distinct tasks one by one in an empty table gives them all by identifier.
pub proof fn lemma_insert_all_distinct(s: Seq<ResearchTask>)
    requires
        ids_distinct(s),
    ensures
        insert_all(Map::empty(), s) == tasks_by_id(s),
    decreases s.len(),
{
    if s.len() == 0 {
        assert(tasks_by_id(s) =~= Map::<Seq<char>, ResearchTask>::empty());
    } else {
        let t = s.drop_last();
        let n = t.len() as int;
        assert forall|i: int, j: int| 0 <= i < j < t.len() implies #[trigger] t[i].id@ != #[trigger] t[j].id@ by {
            assert(s[i].id@ != s[j].id@);
        }
        lemma_insert_all_distinct(t);
        let key = s.last().id@;
        let m0 = tasks_by_id(t);
        let m1 = tasks_by_id(s);
        assert forall|id: Seq<char>| #[trigger] m1.contains_key(id) == m0.insert(key, s.last()).contains_key(id) by {
            if m0.contains_key(id) {
                let k = choose|k: int| 0 <= k < t.len() && t[k].id@ == id;
                assert(s[k].id@ == id);
            }
            if id == key {
                assert(s[n].id@ == id);
            }
            if m1.contains_key(id) && id != key {
                let k = choose|k: int| 0 <= k < s.len() && s[k].id@ == id;
                assert(k < n);
                assert(t[k].id@ == id);
            }
        }
        assert forall|id: Seq<char>| #[trigger] m1.contains_key(id) implies m1[id] == m0.insert(key, s.last())[id] by {
            let k = choose|k: int| 0 <= k < s.len() && s[k].id@ == id;
            if id == key {
                if k < n {
                    assert(s[k].id@ != s[n].id@);
                }
                assert(k == n);
            } else {
                assert(k < n);
                let k0 = choose|k0: int| 0 <= k0 < t.len() && t[k0].id@ == id;
                assert(t[k0] == s[k0]);
                if k0 != k {
                    if k0 < k {
                        assert(s[k0].id@ != s[k].id@);
                    } else {
                        assert(s[k].id@ != s[k0].id@);
                    }
                }
            }
        }
        assert(m1 =~= m0.insert(key, s.last()));
    }
}

/// Store each task of `tasks` in `table`, in order.
fn insert_each(table: &mut TaskTable, tasks: &Vec<ResearchTask>)
    requires
        old(table).wf(),
    ensures
        final(table).wf(),
        final(table).view_map() == insert_all(old(table).view_map(), tasks@),
{
    let ghost m0 = old(table).view_map();
    let ghost s = tasks@;
    let mut i: usize = 0;
    while i < tasks.len()
        invariant
            table.wf(),
            s == tasks@,
            table.view_map() == insert_all(m0, s.take(i as int)),
            i <= s.len(),
        decreases tasks.len() - i,
    {
        assert(s.take(i + 1).drop_last() =~= s.take(i as int));
        table.insert(tasks[i].duplicate());
        i = i + 1;
    }
    assert(s.take(s.len() as int) =~= s);
}

} // verus!

verus! {

/// A completed task stamped with its completion time.
pub open spec fn stamped_completed(task: ResearchTask, now_nanos: i64) -> ResearchTask {
    ResearchTask { completed_at_nanos: Some(now_nanos), ..task }
}

/// A task sent back to the queue: pending, with one more retry counted.
pub open spec fn requeued(task: ResearchTask) -> ResearchTask {
    ResearchTask { retry_count: (task.retry_count + 1) as u32, state: TaskState::Pending, ..task }
}

/// What the scheduler writes to storage and reads back.
#[derive(Debug)]
pub struct QueueSnapshot {
    pub pending_tasks: Vec<ResearchTask>,
    pub executing_tasks: Vec<ResearchTask>,
    pub completed_tasks: Vec<ResearchTask>,
    pub failed_tasks: Vec<ResearchTask>,
    pub metrics: QueueMetrics,
    pub version: u32,
}

/// The most completed tasks read back from storage.
pub const RESTORED_COMPLETED_LIMIT: usize = 1000;

/// Background research task scheduler: a bounded priority queue of pending tasks and
/// tables of executing, completed and failed tasks keyed by identifier.
#[derive(Debug)]
pub struct BackgroundScheduler {
    config: BackgroundSchedulerConfig,
    pending_queue: TaskQueue,
    executing_tasks: TaskTable,
    completed_tasks: TaskTable,
    failed_tasks: TaskTable,
    metrics: QueueMetrics,
}

impl BackgroundScheduler {
    /// The tables are well formed and the queue is bounded by the configured size.
    pub closed spec fn wf(&self) -> bool {
        &&& self.executing_tasks.wf()
        &&& self.completed_tasks.wf()
        &&& self.failed_tasks.wf()
        &&& self.pending_queue.limit() == self.config.max_queue_size
    }

    pub closed spec fn settings(&self) -> BackgroundSchedulerConfig {
        self.config
    }

    pub closed spec fn pending(&self) -> TaskQueue {
        self.pending_queue
    }

    pub closed spec fn executing(&self) -> TaskTable {
        self.executing_tasks
    }

    pub closed spec fn completed(&self) -> TaskTable {
        self.completed_tasks
    }

    pub closed spec fn failed(&self) -> TaskTable {
        self.failed_tasks
    }

    /// The metrics last recorded.
    pub closed spec fn recorded_metrics(&self) -> QueueMetrics {
        self.metrics
    }

    /// The recorded metrics with every count taken from the current collections.
    pub open spec fn current_metrics(&self) -> QueueMetrics {
        QueueMetrics {
            current_queue_size: self.pending().tasks().len() as usize,
            executing_tasks: self.executing().count() as usize,
            completed_tasks: self.completed().count() as u64,
            failed_tasks: self.failed().count() as u64,
            ..self.recorded_metrics()
        }
    }

    /// The executing tasks that have run past their timeout at `now_nanos`.
    pub open spec fn timed_out_tasks(&self, now_nanos: i64) -> Seq<ResearchTask> {
        self.executing().entries().filter(|t: ResearchTask| t.timed_out_at(now_nanos))
    }

    /// The task found under `id`: the earliest pending one, else the executing, the
    /// completed and the failed one, in that order.
    pub open spec fn lookup(&self, id: Seq<char>) -> Option<ResearchTask> {
        match first_with_id(self.pending().tasks(), id) {
            Some(t) => Some(t),
            None => if self.executing().view_map().contains_key(id) {
                Some(self.executing().view_map()[id])
            } else if self.completed().view_map().contains_key(id) {
                Some(self.completed().view_map()[id])
            } else if self.failed().view_map().contains_key(id) {
                Some(self.failed().view_map()[id])
            } else {
                None
            },
        }
    }

    /// A scheduler with empty collections and zeroed metrics.
    pub fn new(config: BackgroundSchedulerConfig) -> (s: BackgroundScheduler)
        ensures
            s.wf(),
            s.settings() == config,
            s.pending().tasks() == Seq::<ResearchTask>::empty(),
            s.executing().view_map() == Map::<Seq<char>, ResearchTask>::empty(),
            s.completed().view_map() == Map::<Seq<char>, ResearchTask>::empty(),
            s.failed().view_map() == Map::<Seq<char>, ResearchTask>::empty(),
            s.recorded_metrics() == (QueueMetrics {
                total_tasks_processed: 0,
                current_queue_size: 0,
                executing_tasks: 0,
                completed_tasks: 0,
                failed_tasks: 0,
                average_processing_time_ms: 0,
            }),
    {
        let limit = config.max_queue_size;
        BackgroundScheduler {
            config,
            pending_queue: TaskQueue::new(limit),
            executing_tasks: TaskTable::new(),
            completed_tasks: TaskTable::new(),
            failed_tasks: TaskTable::new(),
            metrics: QueueMetrics {
                total_tasks_processed: 0,
                current_queue_size: 0,
                executing_tasks: 0,
                completed_tasks: 0,
                failed_tasks: 0,
                average_processing_time_ms: 0,
            },
        }
    }

    /// Scheduler configuration.
    pub fn config(&self) -> (c: &BackgroundSchedulerConfig)
        ensures
            *c == self.settings(),
    {
        &self.config
    }

    /// Record the current counts in the metrics.
    fn update_queue_metrics(&mut self)
        ensures
            final(self).recorded_metrics() == old(self).current_metrics(),
            final(self).config == old(self).config,
            final(self).pending_queue == old(self).pending_queue,
            final(self).executing_tasks == old(self).executing_tasks,
            final(self).completed_tasks == old(self).completed_tasks,
            final(self).failed_tasks == old(self).failed_tasks,
    {
        self.metrics.current_queue_size = self.pending_queue.queue_size();
        self.metrics.executing_tasks = self.executing_tasks.len();
        self.metrics.completed_tasks = self.completed_tasks.len() as u64;
        self.metrics.failed_tasks = self.failed_tasks.len() as u64;
    }

    /// Add a task to the pending queue, refused with `QueueFull` when the queue holds
    /// its configured size. A task queued without a duration estimate gets one (see
    /// `with_estimate`).
    pub fn enqueue(&mut self, task: ResearchTask) -> (r: Result<(), SchedulerError>)
        requires
            old(self).wf(),
            old(self).pending().tasks().len() < old(self).settings().max_queue_size ==> can_estimate(task),
        ensures
            final(self).wf(),
            final(self).settings() == old(self).settings(),
            final(self).executing() == old(self).executing(),
            final(self).completed() == old(self).completed(),
            final(self).failed() == old(self).failed(),
            old(self).pending().tasks().len() >= old(self).settings().max_queue_size ==> r
                == Err::<(), SchedulerError>(
                SchedulerError::QueueFull { limit: old(self).settings().max_queue_size },
            ) && final(self).pending().tasks() == old(self).pending().tasks()
                && final(self).recorded_metrics() == old(self).recorded_metrics(),
            old(self).pending().tasks().len() < old(self).settings().max_queue_size ==> r is Ok
                && final(self).pending().tasks() == old(self).pending().tasks().push(with_estimate(task))
                && final(self).recorded_metrics() == final(self).current_metrics(),
            old(self).pending().tasks().len() <= old(self).settings().max_queue_size ==> final(self).pending().tasks().len()
                <= final(self).settings().max_queue_size,
    {
        let mut task = task;
        if task.estimated_duration_ms.is_none() && self.pending_queue.queue_size() < self.config.max_queue_size {
            task.estimate_duration();
        }
        let r = self.pending_queue.enqueue(task);
        if r.is_ok() {
            self.update_queue_metrics();
        }
        r
    }

    /// Remove and return the highest priority pending task.
    pub fn dequeue(&mut self) -> (r: Result<Option<ResearchTask>, SchedulerError>)
        requires
            old(self).wf(),
        ensures
            final(self).wf(),
            final(self).settings() == old(self).settings(),
            final(self).executing() == old(self).executing(),
            final(self).completed() == old(self).completed(),
            final(self).failed() == old(self).failed(),
            r == Ok::<Option<ResearchTask>, SchedulerError>(old(self).pending().next_task()),
            old(self).pending().tasks().len() == 0 ==> final(self).pending().tasks() == old(self).pending().tasks()
                && final(self).recorded_metrics() == old(self).recorded_metrics(),
            old(self).pending().tasks().len() > 0 ==> final(self).pending().tasks() == old(self).pending().tasks().remove(
                best_index(old(self).pending().tasks()),
            ) && final(self).recorded_metrics() == final(self).current_metrics(),
    {
        let t = self.pending_queue.dequeue();
        if t.is_some() {
            self.update_queue_metrics();
        }
        Ok(t)
    }

    /// The highest priority pending task, left in the queue.
    pub fn peek(&self) -> (r: Result<Option<ResearchTask>, SchedulerError>)
        ensures
            r == Ok::<Option<ResearchTask>, SchedulerError>(self.pending().next_task()),
    {
        Ok(self.pending_queue.peek())
    }

    /// Number of pending tasks.
    pub fn queue_size(&self) -> (n: usize)
        ensures
            n == self.pending().tasks().len(),
    {
        self.pending_queue.queue_size()
    }

    /// The task held under `id`, searched among the pending, executing, completed and
    /// failed tasks in that order.
    pub fn get_task_by_id(&self, id: &str) -> (r: Result<Option<ResearchTask>, SchedulerError>)
        requires
            self.wf(),
        ensures
            r == Ok::<Option<ResearchTask>, SchedulerError>(self.lookup(id@)),
    {
        let p = self.pending_queue.find_by_id(id);
        if p.is_some() {
            return Ok(p);
        }
        let e = self.executing_tasks.get(id);
        if e.is_some() {
            return Ok(e);
        }
        let c = self.completed_tasks.get(id);
        if c.is_some() {
            return Ok(c);
        }
        Ok(self.failed_tasks.get(id))
    }

    /// The metrics last recorded.
    pub fn get_metrics(&self) -> (m: QueueMetrics)
        ensures
            m == self.recorded_metrics(),
    {
        self.metrics
    }

    /// Move a task to the collection of its state: an executing task is stored among
    /// the executing ones; a completed or failed one leaves them for its own table, a
    /// completed one stamped with `now_nanos`; a cancelled one leaves them; a pending
    /// one is queued again with one more retry counted, and estimated as `enqueue` does.
    pub fn update_task_at(&mut self, task: ResearchTask, now_nanos: i64) -> (r: Result<(), SchedulerError>)
        requires
            old(self).wf(),
            task.state == TaskState::Pending ==> task.retry_count < u32::MAX,
            task.state == TaskState::Pending && old(self).pending().tasks().len() < old(self).settings().max_queue_size
                ==> can_estimate(task),
        ensures
            final(self).wf(),
            final(self).settings() == old(self).settings(),
            task.state != TaskState::Pending ==> r is Ok
                && final(self).pending().tasks() == old(self).pending().tasks()
                && final(self).recorded_metrics() == final(self).current_metrics(),
            task.state == TaskState::Executing ==> final(self).executing().view_map()
                == old(self).executing().view_map().insert(task.id@, task)
                && final(self).completed() == old(self).completed()
                && final(self).failed() == old(self).failed(),
            task.state == TaskState::Completed ==> final(self).executing().view_map()
                == old(self).executing().view_map().remove(task.id@)
                && final(self).completed().view_map()
                == old(self).completed().view_map().insert(task.id@, stamped_completed(task, now_nanos))
                && final(self).failed() == old(self).failed(),
            task.state == TaskState::Failed ==> final(self).executing().view_map()
                == old(self).executing().view_map().remove(task.id@)
                && final(self).completed() == old(self).completed()
                && final(self).failed().view_map()
                == old(self).failed().view_map().insert(task.id@, task),
            task.state == TaskState::Cancelled ==> final(self).executing().view_map()
                == old(self).executing().view_map().remove(task.id@)
                && final(self).completed() == old(self).completed()
                && final(self).failed() == old(self).failed(),
            task.state == TaskState::Pending ==> final(self).executing() == old(self).executing()
                && final(self).completed() == old(self).completed()
                && final(self).failed() == old(self).failed()
                && (if old(self).pending().tasks().len() >= old(self).settings().max_queue_size {
                    r == Err::<(), SchedulerError>(
                        SchedulerError::QueueFull { limit: old(self).settings().max_queue_size },
                    ) && final(self).pending().tasks() == old(self).pending().tasks()
                        && final(self).recorded_metrics() == old(self).recorded_metrics()
                } else {
                    r is Ok && final(self).pending().tasks() == old(self).pending().tasks().push(
                        with_estimate(requeued(task)),
                    ) && final(self).recorded_metrics() == final(self).current_metrics()
                }),
            first_with_id(old(self).pending().tasks(), task.id@) is None ==> final(self).lookup(task.id@) == match task.state {
                TaskState::Executing => Some(task),
                TaskState::Completed => Some(stamped_completed(task, now_nanos)),
                TaskState::Failed => if old(self).completed().view_map().contains_key(task.id@) {
                    Some(old(self).completed().view_map()[task.id@])
                } else {
                    Some(task)
                },
                TaskState::Cancelled => if old(self).completed().view_map().contains_key(task.id@) {
                    Some(old(self).completed().view_map()[task.id@])
                } else if old(self).failed().view_map().contains_key(task.id@) {
                    Some(old(self).failed().view_map()[task.id@])
                } else {
                    None
                },
                TaskState::Pending => if r is Ok {
                    Some(with_estimate(requeued(task)))
                } else {
                    old(self).lookup(task.id@)
                },
            },
    {
        proof {
            lemma_first_with_id_found(old(self).pending().tasks(), task.id@);
        }
        match task.state {
            TaskState::Executing => {
                self.executing_tasks.insert(task);
            },
            TaskState::Completed => {
                let _ = self.executing_tasks.remove(task.id.as_str());
                let mut done = task;
                done.completed_at_nanos = Some(now_nanos);
                self.completed_tasks.insert(done);
            },
            TaskState::Failed => {
                let _ = self.executing_tasks.remove(task.id.as_str());
                self.failed_tasks.insert(task);
            },
            TaskState::Pending => {
                let mut again = task;
                again.retry_count = again.retry_count + 1;
                again.state = TaskState::Pending;
                assert(again == requeued(task));
                assert(old(self).pending().tasks().push(with_estimate(again)).drop_last() =~= old(self).pending().tasks());
                return self.enqueue(again);
            },
            TaskState::Cancelled => {
                let _ = self.executing_tasks.remove(task.id.as_str());
            },
        }
        self.update_queue_metrics();
        Ok(())
    }

    /// `update_task_at` at the current time.
    pub fn update_task(&mut self, task: ResearchTask) -> (r: Result<(), SchedulerError>)
        requires
            old(self).wf(),
            task.state == TaskState::Pending ==> task.retry_count < u32::MAX,
            task.state == TaskState::Pending && old(self).pending().tasks().len() < old(self).settings().max_queue_size
                ==> can_estimate(task),
        ensures
            final(self).wf(),
            final(self).settings() == old(self).settings(),
            task.state != TaskState::Pending ==> r is Ok,
            task.state == TaskState::Executing ==> final(self).executing().view_map()
                == old(self).executing().view_map().insert(task.id@, task),
            task.state == TaskState::Completed ==> final(self).executing().view_map()
                == old(self).executing().view_map().remove(task.id@)
                && exists|now: i64| final(self).completed().view_map()
                    == old(self).completed().view_map().insert(task.id@, #[trigger] stamped_completed(task, now)),
            task.state == TaskState::Failed ==> final(self).failed().view_map()
                == old(self).failed().view_map().insert(task.id@, task),
            task.state == TaskState::Cancelled ==> final(self).executing().view_map()
                == old(self).executing().view_map().remove(task.id@),
            task.state == TaskState::Pending ==> (r is Ok <==> old(self).pending().tasks().len()
                < old(self).settings().max_queue_size),
    {
        let now = utc_now_nanos();
        self.update_task_at(task, now)
    }

    /// The executing tasks that have run past their timeout at `now_nanos`.
    pub fn get_timed_out_tasks_at(&self, now_nanos: i64) -> (r: Vec<ResearchTask>)
        ensures
            r@ == self.timed_out_tasks(now_nanos),
    {
        self.executing_tasks.timed_out_at(now_nanos)
    }

    /// The executing tasks that have run past their timeout now.
    pub fn get_timed_out_tasks(&self) -> (r: Vec<ResearchTask>)
        ensures
            exists|now: i64| r@ == #[trigger] self.timed_out_tasks(now),
    {
        let now = utc_now_nanos();
        self.get_timed_out_tasks_at(now)
    }

    /// Drop every pending and executing task; completed and failed tasks stay.
    pub fn cancel_all_tasks(&mut self)
        requires
            old(self).wf(),
        ensures
            final(self).wf(),
            final(self).settings() == old(self).settings(),
            final(self).pending().tasks() == Seq::<ResearchTask>::empty(),
            final(self).executing().view_map() == Map::<Seq<char>, ResearchTask>::empty(),
            final(self).executing().count() == 0,
            final(self).completed() == old(self).completed(),
            final(self).failed() == old(self).failed(),
            final(self).recorded_metrics() == final(self).current_metrics(),
            forall|id: Seq<char>| #[trigger] final(self).lookup(id) == if old(self).completed().view_map().contains_key(id) {
                Some(old(self).completed().view_map()[id])
            } else if old(self).failed().view_map().contains_key(id) {
                Some(old(self).failed().view_map()[id])
            } else {
                None::<ResearchTask>
            },
    {
        self.pending_queue.clear();
        self.executing_tasks.clear();
        self.update_queue_metrics();
    }

    /// Whether the queue is due to be written to storage, `elapsed_ms` after the last
    /// write.
    pub fn persistence_due(&self, elapsed_ms: u64) -> (r: bool)
        ensures
            r == (elapsed_ms >= self.settings().persistence_interval_ms),
    {
        elapsed_ms >= self.config.persistence_interval_ms
    }

    /// Everything the scheduler writes to storage.
    pub fn snapshot(&self) -> (s: QueueSnapshot)
        ensures
            s.pending_tasks@ == self.pending().tasks(),
            s.executing_tasks@ == self.executing().entries(),
            s.completed_tasks@ == self.completed().entries(),
            s.failed_tasks@ == self.failed().entries(),
            s.metrics == self.recorded_metrics(),
            s.version == 1,
    {
        QueueSnapshot {
            pending_tasks: self.pending_queue.snapshot(),
            executing_tasks: self.executing_tasks.snapshot(),
            completed_tasks: self.completed_tasks.snapshot(),
            failed_tasks: self.failed_tasks.snapshot(),
            metrics: self.metrics,
            version: 1,
        }
    }

    /// Take back what storage held: the pending tasks join the queue whatever its
    /// size, the others are stored under their identifiers, at most the first
    /// `RESTORED_COMPLETED_LIMIT` completed ones, and the stored metrics are recorded.
    pub fn restore(&mut self, saved: &QueueSnapshot)
        requires
            old(self).wf(),
        ensures
            final(self).wf(),
            final(self).settings() == old(self).settings(),
            final(self).pending().tasks() == old(self).pending().tasks() + saved.pending_tasks@,
            final(self).executing().view_map() == insert_all(old(self).executing().view_map(), saved.executing_tasks@),
            final(self).completed().view_map() == insert_all(
                old(self).completed().view_map(),
                if saved.completed_tasks@.len() > RESTORED_COMPLETED_LIMIT {
                    saved.completed_tasks@.take(RESTORED_COMPLETED_LIMIT as int)
                } else {
                    saved.completed_tasks@
                },
            ),
            final(self).failed().view_map() == insert_all(old(self).failed().view_map(), saved.failed_tasks@),
            final(self).recorded_metrics() == saved.metrics,
    {
        let ghost p0 = self.pending_queue.tasks();
        let mut i: usize = 0;
        while i < saved.pending_tasks.len()
            invariant
                i <= saved.pending_tasks@.len(),
                self.pending_queue.tasks() == p0 + saved.pending_tasks@.take(i as int),
                self.pending_queue.limit() == old(self).pending_queue.limit(),
                self.executing_tasks == old(self).executing_tasks,
                self.completed_tasks == old(self).completed_tasks,
                self.failed_tasks == old(self).failed_tasks,
                self.config == old(self).config,
            decreases saved.pending_tasks.len() - i,
        {
            self.pending_queue.restore(saved.pending_tasks[i].duplicate());
            assert(p0 + saved.pending_tasks@.take(i + 1) =~= (p0 + saved.pending_tasks@.take(i as int)).push(saved.pending_tasks@[i as int]));
            i = i + 1;
        }
        assert(saved.pending_tasks@.take(saved.pending_tasks@.len() as int) =~= saved.pending_tasks@);
        insert_each(&mut self.executing_tasks, &saved.executing_tasks);
        let mut recent: Vec<ResearchTask> = Vec::new();
        let mut k: usize = 0;
        while k < saved.completed_tasks.len() && k < RESTORED_COMPLETED_LIMIT
            invariant
                k <= saved.completed_tasks@.len(),
                k <= RESTORED_COMPLETED_LIMIT,
                recent@ == saved.completed_tasks@.take(k as int),
                self.completed_tasks == old(self).completed_tasks,
            decreases saved.completed_tasks.len() - k,
        {
            recent.push(saved.completed_tasks[k].duplicate());
            assert(recent@ =~= saved.completed_tasks@.take(k + 1));
            k = k + 1;
        }
        assert(saved.completed_tasks@.len() <= RESTORED_COMPLETED_LIMIT ==> saved.completed_tasks@.take(k as int) =~= saved.completed_tasks@);
        insert_each(&mut self.completed_tasks, &recent);
        insert_each(&mut self.failed_tasks, &saved.failed_tasks);
        self.metrics = saved.metrics;
    }
}

/// Writing the scheduler to storage and reading it back into a fresh scheduler gives
/// the same pending queue, in the same order, and the same executing, completed and
/// failed tasks, provided no more completed tasks were kept than are read back.
pub proof fn lemma_snapshot_restore_round_trip(s: BackgroundScheduler, saved: QueueSnapshot, fresh: BackgroundScheduler)
    requires
        s.wf(),
        fresh.wf(),
        saved.pending_tasks@ == s.pending().tasks(),
        saved.executing_tasks@ == s.executing().entries(),
        saved.completed_tasks@ == s.completed().entries(),
        saved.failed_tasks@ == s.failed().entries(),
        s.completed().entries().len() <= RESTORED_COMPLETED_LIMIT,
        fresh.pending().tasks() == Seq::<ResearchTask>::empty(),
        fresh.executing().view_map() == Map::<Seq<char>, ResearchTask>::empty(),
        fresh.completed().view_map() == Map::<Seq<char>, ResearchTask>::empty(),
        fresh.failed().view_map() == Map::<Seq<char>, ResearchTask>::empty(),
    ensures
        fresh.pending().tasks() + saved.pending_tasks@ == s.pending().tasks(),
        insert_all(fresh.executing().view_map(), saved.executing_tasks@) == s.executing().view_map(),
        insert_all(
            fresh.completed().view_map(),
            if saved.completed_tasks@.len() > RESTORED_COMPLETED_LIMIT {
                saved.completed_tasks@.take(RESTORED_COMPLETED_LIMIT as int)
            } else {
                saved.completed_tasks@
            },
        ) == s.completed().view_map(),
        insert_all(fresh.failed().view_map(), saved.failed_tasks@) == s.failed().view_map(),
{
    assert(fresh.pending().tasks() + saved.pending_tasks@ =~= s.pending().tasks());
    s.executing().lemma_view_is_entries();
    s.completed().lemma_view_is_entries();
    s.failed().lemma_view_is_entries();
    lemma_insert_all_distinct(s.executing().entries());
    lemma_insert_all_distinct(s.completed().entries());
    lemma_insert_all_distinct(s.failed().entries());
}

} // verus!
