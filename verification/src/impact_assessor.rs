//! Impact assessment of knowledge gaps: from a gap's type, its file's place in the
//! project and its context, how widely the code around it is used, depended on,
//! exposed, changed and shared. Scores are kept in tenths of a point (0 to 100 for
//! 0.0 to 10.0) and confidences and shares in percent.

use vstd::prelude::*;
use crate::gap_analyzer::{DetectedGap, GapType};
use crate::text::{contains_seq, lowercase, str_contains, string_views, to_lowercase};

verus! {

/// The highest score, in tenths of a point.
pub const MAX_SCORE_TENTHS: u32 = 100;

/// A score capped at ten points.
pub open spec fn capped_score(x: int) -> int {
    if x > 100 { 100 } else { x }
}

/// Where in a project a file lies, as far as impact assessment tells.
#[derive(Debug, Clone, Copy, PartialEq, Eq, Structural)]
pub enum FileLocation {
    /// A path through `src/lib.rs`
    LibraryRoot,
    /// A `main.rs` file
    MainFile,
    /// Another file under `src/`
    Source,
    /// A file under `tests/`
    Tests,
    /// Anything else
    Other,
}

/// The location of a path, read case-insensitively.
pub open spec fn file_location_of(path: Seq<char>) -> FileLocation {
    let p = lowercase(path);
    if contains_seq(p, "src/lib.rs"@) {
        FileLocation::LibraryRoot
    } else if contains_seq(p, "main.rs"@) {
        FileLocation::MainFile
    } else if contains_seq(p, "src/"@) {
        FileLocation::Source
    } else if contains_seq(p, "tests/"@) {
        FileLocation::Tests
    } else {
        FileLocation::Other
    }
}

/// Classifies a file path by its lower-cased text.
pub fn file_location(path: &str) -> (l: FileLocation)
    ensures
        l == file_location_of(path@),
{
    let p = to_lowercase(path);
    if str_contains(p.as_str(), "src/lib.rs") {
        FileLocation::LibraryRoot
    } else if str_contains(p.as_str(), "main.rs") {
        FileLocation::MainFile
    } else if str_contains(p.as_str(), "src/") {
        FileLocation::Source
    } else if str_contains(p.as_str(), "tests/") {
        FileLocation::Tests
    } else {
        FileLocation::Other
    }
}

// ---------------------------------------------------------------- usage patterns

/// Usage pattern analysis for a code component.
#[derive(Debug, Clone)]
pub struct UsagePatternAnalysis {
    /// Number of times this component is imported or referenced
    pub import_count: usize,
    /// Number of direct calls to this component
    pub call_count: usize,
    /// Number of files that reference this component
    pub referencing_files: usize,
    /// Files that directly import or use this component
    pub importing_files: Vec<String>,
    /// Usage frequency score, in tenths of a point
    pub usage_frequency_tenths: u32,
    /// Confidence in the analysis, in percent
    pub analysis_confidence_percent: u8,
}

/// Usage score that a gap type starts from.
pub open spec fn usage_base_tenths(t: GapType) -> int {
    match t {
        GapType::ApiDocumentationGap => 80,
        GapType::TodoComment => 60,
        GapType::UndocumentedTechnology => 70,
        GapType::MissingDocumentation => 50,
        GapType::ConfigurationGap => 40,
    }
}

/// Confidence of the usage analysis for a gap type.
pub open spec fn usage_confidence(t: GapType) -> int {
    match t {
        GapType::ApiDocumentationGap => 70,
        GapType::TodoComment => 80,
        GapType::UndocumentedTechnology => 60,
        GapType::MissingDocumentation => 70,
        GapType::ConfigurationGap => 80,
    }
}

/// What a file's location adds to its usage score.
pub open spec fn usage_location_tenths(l: FileLocation) -> int {
    match l {
        FileLocation::LibraryRoot | FileLocation::MainFile => 20,
        FileLocation::Source => 10,
        FileLocation::Tests => 5,
        FileLocation::Other => 0,
    }
}

/// How many files are taken to reference a component at a location.
pub open spec fn usage_referencing_files(l: FileLocation) -> int {
    match l {
        FileLocation::LibraryRoot | FileLocation::MainFile => 10,
        FileLocation::Source => 5,
        FileLocation::Tests => 2,
        FileLocation::Other => 0,
    }
}

/// Analyzes usage patterns for a gap's code component, from its type and location.
pub fn analyze_usage_patterns(gap: &DetectedGap) -> (a: UsagePatternAnalysis)
    ensures
        a.import_count == 0,
        a.call_count == 0,
        a.importing_files@.len() == 0,
        a.usage_frequency_tenths == capped_score(
            usage_base_tenths(gap.gap_type) + usage_location_tenths(file_location_of(gap.file_path@)),
        ),
        a.referencing_files == usage_referencing_files(file_location_of(gap.file_path@)),
        a.analysis_confidence_percent == usage_confidence(gap.gap_type),
{
    let (base, confidence): (u32, u8) = match gap.gap_type {
        GapType::ApiDocumentationGap => (80, 70),
        GapType::TodoComment => (60, 80),
        GapType::UndocumentedTechnology => (70, 60),
        GapType::MissingDocumentation => (50, 70),
        GapType::ConfigurationGap => (40, 80),
    };
    let (bonus, referencing): (u32, usize) = match file_location(gap.file_path.as_str()) {
        FileLocation::LibraryRoot | FileLocation::MainFile => (20, 10),
        FileLocation::Source => (10, 5),
        FileLocation::Tests => (5, 2),
        FileLocation::Other => (0, 0),
    };
    let score = base + bonus;
    UsagePatternAnalysis {
        import_count: 0,
        call_count: 0,
        referencing_files: referencing,
        importing_files: Vec::new(),
        usage_frequency_tenths: if score > MAX_SCORE_TENTHS { MAX_SCORE_TENTHS } else { score },
        analysis_confidence_percent: confidence,
    }
}

// ---------------------------------------------------------------- dependencies

/// Dependency impact analysis for a code component.
#[derive(Debug, Clone)]
pub struct DependencyImpactAnalysis {
    /// Number of direct dependencies
    pub direct_dependencies: usize,
    /// Number of transitive dependencies within the analysis depth
    pub transitive_dependencies: usize,
    /// Number of components that depend on this component
    pub reverse_dependencies: usize,
    /// Maximum depth of the dependency chain
    pub max_dependency_depth: usize,
    /// Critical dependencies that would break functionality
    pub critical_dependencies: Vec<String>,
    /// Dependency impact score, in tenths of a point
    pub dependency_impact_tenths: u32,
    /// Confidence in the analysis, in percent
    pub analysis_confidence_percent: u8,
}

/// Dependency score that a gap type starts from.
pub open spec fn dependency_base_tenths(t: GapType) -> int {
    match t {
        GapType::ApiDocumentationGap => 90,
        GapType::UndocumentedTechnology => 70,
        GapType::TodoComment => 50,
        GapType::MissingDocumentation => 40,
        GapType::ConfigurationGap => 60,
    }
}

/// Dependents taken for a gap type before its location is counted.
pub open spec fn dependency_base_dependents(t: GapType) -> int {
    match t {
        GapType::ApiDocumentationGap => 15,
        GapType::UndocumentedTechnology => 8,
        GapType::TodoComment => 3,
        GapType::MissingDocumentation => 2,
        GapType::ConfigurationGap => 5,
    }
}

/// Confidence of the dependency analysis for a gap type.
pub open spec fn dependency_confidence(t: GapType) -> int {
    match t {
        GapType::ApiDocumentationGap => 80,
        GapType::UndocumentedTechnology => 70,
        GapType::TodoComment => 60,
        GapType::MissingDocumentation => 70,
        GapType::ConfigurationGap => 80,
    }
}

/// What a file's location adds to its dependency score.
pub open spec fn dependency_location_tenths(l: FileLocation) -> int {
    match l {
        FileLocation::LibraryRoot => 20,
        FileLocation::MainFile => 15,
        _ => 0,
    }
}

/// Dependents that a file's location adds.
pub open spec fn dependency_location_dependents(l: FileLocation) -> int {
    match l {
        FileLocation::LibraryRoot => 10,
        FileLocation::MainFile => 5,
        _ => 0,
    }
}

/// Analyzes the dependency impact of a gap's code component, from its type and location.
pub fn analyze_dependency_impact(gap: &DetectedGap) -> (a: DependencyImpactAnalysis)
    ensures
        a.direct_dependencies == 0,
        a.transitive_dependencies == 0,
        a.max_dependency_depth == 0,
        a.critical_dependencies@.len() == 0,
        a.dependency_impact_tenths == capped_score(
            dependency_base_tenths(gap.gap_type) + dependency_location_tenths(file_location_of(gap.file_path@)),
        ),
        a.reverse_dependencies == dependency_base_dependents(gap.gap_type)
            + dependency_location_dependents(file_location_of(gap.file_path@)),
        a.analysis_confidence_percent == dependency_confidence(gap.gap_type),
{
    let (base, dependents, confidence): (u32, usize, u8) = match gap.gap_type {
        GapType::ApiDocumentationGap => (90, 15, 80),
        GapType::UndocumentedTechnology => (70, 8, 70),
        GapType::TodoComment => (50, 3, 60),
        GapType::MissingDocumentation => (40, 2, 70),
        GapType::ConfigurationGap => (60, 5, 80),
    };
    let (bonus, more): (u32, usize) = match file_location(gap.file_path.as_str()) {
        FileLocation::LibraryRoot => (20, 10),
        FileLocation::MainFile => (15, 5),
        _ => (0, 0),
    };
    let score = base + bonus;
    DependencyImpactAnalysis {
        direct_dependencies: 0,
        transitive_dependencies: 0,
        reverse_dependencies: dependents + more,
        max_dependency_depth: 0,
        critical_dependencies: Vec::new(),
        dependency_impact_tenths: if score > MAX_SCORE_TENTHS { MAX_SCORE_TENTHS } else { score },
        analysis_confidence_percent: confidence,
    }
}

// ---------------------------------------------------------------- API visibility

/// API visibility and exposure analysis.
#[derive(Debug, Clone)]
pub struct ApiVisibilityAnalysis {
    /// Whether this component has public API exposure
    pub has_public_api: bool,
    /// Number of public methods or functions
    pub public_methods: usize,
    /// Number of internal or private methods
    pub internal_methods: usize,
    /// Whether this is part of the external API surface
    pub external_api_surface: bool,
    /// API surface size (total exposed API points)
    pub api_surface_size: usize,
    /// External usage indicators (examples, documentation)
    pub external_usage_indicators: Vec<String>,
    /// API visibility score, in tenths of a point
    pub api_visibility_tenths: u32,
    /// Confidence in the analysis, in percent
    pub analysis_confidence_percent: u8,
}

/// Whether a gap's context shows a public function or struct.
pub open spec fn shows_public_item(context: Seq<char>) -> bool {
    contains_seq(context, "pub fn"@) || contains_seq(context, "pub struct"@)
}

/// Visibility score that a gap type starts from.
pub open spec fn visibility_base_tenths(t: GapType) -> int {
    match t {
        GapType::ApiDocumentationGap => 90,
        GapType::UndocumentedTechnology => 30,
        GapType::MissingDocumentation => 50,
        GapType::TodoComment => 40,
        GapType::ConfigurationGap => 70,
    }
}

/// Confidence of the visibility analysis for a gap type.
pub open spec fn visibility_confidence(t: GapType) -> int {
    match t {
        GapType::ApiDocumentationGap => 90,
        GapType::UndocumentedTechnology => 60,
        GapType::MissingDocumentation => 50,
        GapType::TodoComment => 60,
        GapType::ConfigurationGap => 80,
    }
}

/// Analyzes the API visibility of a gap's code component, from its type and context.
pub fn analyze_api_visibility(gap: &DetectedGap) -> (a: ApiVisibilityAnalysis)
    ensures
        a.has_public_api == (gap.gap_type == GapType::ApiDocumentationGap || shows_public_item(gap.context@)),
        a.external_api_surface == (gap.gap_type == GapType::ApiDocumentationGap
            || gap.gap_type == GapType::ConfigurationGap),
        a.public_methods == (if gap.gap_type == GapType::ApiDocumentationGap { 5int } else { 0int })
            + (if shows_public_item(gap.context@) { 1int } else { 0int }),
        a.internal_methods == (if gap.gap_type == GapType::UndocumentedTechnology { 3int } else { 0int }),
        a.api_surface_size == 0,
        a.external_usage_indicators@.len() == 0,
        a.api_visibility_tenths == capped_score(
            visibility_base_tenths(gap.gap_type) + (if shows_public_item(gap.context@) { 20int } else { 0int }),
        ),
        a.analysis_confidence_percent == visibility_confidence(gap.gap_type),
{
    let mut a = ApiVisibilityAnalysis {
        has_public_api: false,
        public_methods: 0,
        internal_methods: 0,
        external_api_surface: false,
        api_surface_size: 0,
        external_usage_indicators: Vec::new(),
        api_visibility_tenths: 0,
        analysis_confidence_percent: 0,
    };
    match gap.gap_type {
        GapType::ApiDocumentationGap => {
            a.has_public_api = true;
            a.external_api_surface = true;
            a.api_visibility_tenths = 90;
            a.public_methods = 5;
            a.analysis_confidence_percent = 90;
        },
        GapType::UndocumentedTechnology => {
            a.has_public_api = false;
            a.api_visibility_tenths = 30;
            a.internal_methods = 3;
            a.analysis_confidence_percent = 60;
        },
        GapType::MissingDocumentation => {
            a.api_visibility_tenths = 50;
            a.analysis_confidence_percent = 50;
        },
        GapType::TodoComment => {
            a.api_visibility_tenths = 40;
            a.analysis_confidence_percent = 60;
        },
        GapType::ConfigurationGap => {
            a.api_visibility_tenths = 70;
            a.external_api_surface = true;
            a.analysis_confidence_percent = 80;
        },
    }
    if str_contains(gap.context.as_str(), "pub fn") || str_contains(gap.context.as_str(), "pub struct") {
        a.has_public_api = true;
        a.api_visibility_tenths = a.api_visibility_tenths + 20;
        a.public_methods = a.public_methods + 1;
    }
    if a.api_visibility_tenths > MAX_SCORE_TENTHS {
        a.api_visibility_tenths = MAX_SCORE_TENTHS;
    }
    a
}

// ---------------------------------------------------------------- development activity

/// Days before an assessment that an actively developed component is taken to have changed.
pub const ACTIVE_LAST_CHANGE_DAYS: u32 = 3;

/// Seconds taken between changes of an actively developed component (four days).
pub const ACTIVE_CHANGE_INTERVAL_SECS: u64 = 345600;

/// Development activity and change frequency analysis.
#[derive(Debug, Clone)]
pub struct DevelopmentActivityAnalysis {
    /// Recent changes per week, in tenths
    pub change_frequency_tenths: u32,
    /// Number of developers who have modified this component
    pub developer_count: usize,
    /// How many days before the assessment the component last changed
    pub last_modified_days_ago: Option<u32>,
    /// Average time between modifications, in seconds
    pub average_modification_interval_secs: Option<u64>,
    /// Whether this is actively developed
    pub actively_developed: bool,
    /// Development activity score, in tenths of a point
    pub activity_impact_tenths: u32,
    /// Confidence in the analysis, in percent
    pub analysis_confidence_percent: u8,
}

/// Whether gaps of a type sit in actively developed code.
pub open spec fn actively_developed_type(t: GapType) -> bool {
    t == GapType::TodoComment || t == GapType::ApiDocumentationGap
}

/// Changes per week, in tenths, taken for a gap type.
pub open spec fn change_frequency_tenths_of(t: GapType) -> int {
    match t {
        GapType::TodoComment => 20,
        GapType::ApiDocumentationGap => 15,
        GapType::UndocumentedTechnology => 5,
        GapType::MissingDocumentation => 10,
        GapType::ConfigurationGap => 8,
    }
}

/// Activity score of a gap type.
pub open spec fn activity_tenths(t: GapType) -> int {
    match t {
        GapType::TodoComment => 80,
        GapType::ApiDocumentationGap => 70,
        GapType::UndocumentedTechnology => 40,
        GapType::MissingDocumentation => 50,
        GapType::ConfigurationGap => 60,
    }
}

/// Developers taken to work on code with a gap of a type.
pub open spec fn developer_count_of(t: GapType) -> int {
    match t {
        GapType::TodoComment => 3,
        GapType::ApiDocumentationGap => 5,
        GapType::UndocumentedTechnology => 2,
        GapType::MissingDocumentation => 2,
        GapType::ConfigurationGap => 4,
    }
}

/// Confidence of the activity analysis for a gap type.
pub open spec fn activity_confidence(t: GapType) -> int {
    match t {
        GapType::TodoComment => 70,
        GapType::ApiDocumentationGap => 80,
        GapType::UndocumentedTechnology => 60,
        GapType::MissingDocumentation => 70,
        GapType::ConfigurationGap => 80,
    }
}

/// Analyzes the development activity around a gap, from its type. Actively developed
/// code is taken to have changed three days ago and every four days.
pub fn analyze_development_activity(gap: &DetectedGap) -> (a: DevelopmentActivityAnalysis)
    ensures
        a.actively_developed == actively_developed_type(gap.gap_type),
        a.change_frequency_tenths == change_frequency_tenths_of(gap.gap_type),
        a.activity_impact_tenths == activity_tenths(gap.gap_type),
        a.developer_count == developer_count_of(gap.gap_type),
        a.analysis_confidence_percent == activity_confidence(gap.gap_type),
        a.last_modified_days_ago == (if a.actively_developed { Some(ACTIVE_LAST_CHANGE_DAYS) } else { None }),
        a.average_modification_interval_secs == (if a.actively_developed {
            Some(ACTIVE_CHANGE_INTERVAL_SECS)
        } else {
            None
        }),
{
    let (active, frequency, score, developers, confidence): (bool, u32, u32, usize, u8) = match gap.gap_type {
        GapType::TodoComment => (true, 20, 80, 3, 70),
        GapType::ApiDocumentationGap => (true, 15, 70, 5, 80),
        GapType::UndocumentedTechnology => (false, 5, 40, 2, 60),
        GapType::MissingDocumentation => (false, 10, 50, 2, 70),
        GapType::ConfigurationGap => (false, 8, 60, 4, 80),
    };
    DevelopmentActivityAnalysis {
        change_frequency_tenths: frequency,
        developer_count: developers,
        last_modified_days_ago: if active { Some(ACTIVE_LAST_CHANGE_DAYS) } else { None },
        average_modification_interval_secs: if active { Some(ACTIVE_CHANGE_INTERVAL_SECS) } else { None },
        actively_developed: active,
        activity_impact_tenths: score,
        analysis_confidence_percent: confidence,
    }
}

// ---------------------------------------------------------------- team impact

/// Team workflow impact analysis.
#[derive(Debug, Clone)]
pub struct TeamImpactAnalysis {
    /// Number of team members who work with this component
    pub affected_team_members: usize,
    /// Critical workflows that depend on this component
    pub critical_workflows: Vec<String>,
    /// Development bottleneck potential, in percent
    pub bottleneck_potential_percent: u8,
    /// Knowledge distribution among team members, in percent
    pub knowledge_distribution_percent: u8,
    /// Team impact score, in tenths of a point
    pub team_impact_tenths: u32,
    /// Confidence in the analysis, in percent
    pub analysis_confidence_percent: u8,
}

/// Team members affected by a gap of a type.
pub open spec fn affected_members_of(t: GapType) -> int {
    match t {
        GapType::ApiDocumentationGap => 8,
        GapType::TodoComment => 3,
        GapType::UndocumentedTechnology => 5,
        GapType::MissingDocumentation => 4,
        GapType::ConfigurationGap => 6,
    }
}

/// Bottleneck potential of a gap type, in percent.
pub open spec fn bottleneck_percent_of(t: GapType) -> int {
    match t {
        GapType::ApiDocumentationGap => 90,
        GapType::TodoComment => 60,
        GapType::UndocumentedTechnology => 80,
        GapType::MissingDocumentation => 50,
        GapType::ConfigurationGap => 70,
    }
}

/// Knowledge distribution for a gap type, in percent.
pub open spec fn knowledge_percent_of(t: GapType) -> int {
    match t {
        GapType::ApiDocumentationGap => 30,
        GapType::TodoComment => 70,
        GapType::UndocumentedTechnology => 40,
        GapType::MissingDocumentation => 60,
        GapType::ConfigurationGap => 50,
    }
}

/// Team impact score of a gap type.
pub open spec fn team_tenths_of(t: GapType) -> int {
    match t {
        GapType::ApiDocumentationGap => 90,
        GapType::TodoComment => 60,
        GapType::UndocumentedTechnology => 70,
        GapType::MissingDocumentation => 50,
        GapType::ConfigurationGap => 80,
    }
}

/// Confidence of the team analysis for a gap type.
pub open spec fn team_confidence(t: GapType) -> int {
    match t {
        GapType::ApiDocumentationGap => 80,
        GapType::TodoComment => 70,
        GapType::UndocumentedTechnology => 60,
        GapType::MissingDocumentation => 70,
        GapType::ConfigurationGap => 80,
    }
}

/// Workflows that a gap of a type holds up, in order.
pub open spec fn team_workflows(t: GapType) -> Seq<Seq<char>> {
    match t {
        GapType::ApiDocumentationGap => seq!["API usage"@, "integration testing"@],
        GapType::TodoComment => seq!["development"@],
        GapType::UndocumentedTechnology => seq!["technology adoption"@, "maintenance"@],
        GapType::MissingDocumentation => seq!["onboarding"@],
        GapType::ConfigurationGap => seq!["deployment"@, "configuration management"@],
    }
}

/// Analyzes how a gap affects the team's workflows, from its type.
pub fn analyze_team_impact(gap: &DetectedGap) -> (a: TeamImpactAnalysis)
    ensures
        a.affected_team_members == affected_members_of(gap.gap_type),
        string_views(a.critical_workflows@) == team_workflows(gap.gap_type),
        a.bottleneck_potential_percent == bottleneck_percent_of(gap.gap_type),
        a.knowledge_distribution_percent == knowledge_percent_of(gap.gap_type),
        a.team_impact_tenths == team_tenths_of(gap.gap_type),
        a.analysis_confidence_percent == team_confidence(gap.gap_type),
{
    let mut workflows: Vec<String> = Vec::new();
    let (members, bottleneck, knowledge, score, confidence): (usize, u8, u8, u32, u8) = match gap.gap_type {
        GapType::ApiDocumentationGap => {
            workflows.push("API usage".to_owned());
            workflows.push("integration testing".to_owned());
            (8, 90, 30, 90, 80)
        },
        GapType::TodoComment => {
            workflows.push("development".to_owned());
            (3, 60, 70, 60, 70)
        },
        GapType::UndocumentedTechnology => {
            workflows.push("technology adoption".to_owned());
            workflows.push("maintenance".to_owned());
            (5, 80, 40, 70, 60)
        },
        GapType::MissingDocumentation => {
            workflows.push("onboarding".to_owned());
            (4, 50, 60, 50, 70)
        },
        GapType::ConfigurationGap => {
            workflows.push("deployment".to_owned());
            workflows.push("configuration management".to_owned());
            (6, 70, 50, 80, 80)
        },
    };
    assert(string_views(workflows@) =~= team_workflows(gap.gap_type));
    TeamImpactAnalysis {
        affected_team_members: members,
        critical_workflows: workflows,
        bottleneck_potential_percent: bottleneck,
        knowledge_distribution_percent: knowledge,
        team_impact_tenths: score,
        analysis_confidence_percent: confidence,
    }
}

// ---------------------------------------------------------------- the whole assessment

/// The five analyses that make up the impact of a gap.
#[derive(Debug, Clone)]
pub struct ImpactAnalyses {
    /// Usage pattern analysis
    pub usage_analysis: UsagePatternAnalysis,
    /// Dependency impact analysis
    pub dependency_analysis: DependencyImpactAnalysis,
    /// API visibility analysis
    pub api_visibility_analysis: ApiVisibilityAnalysis,
    /// Development activity analysis
    pub activity_analysis: DevelopmentActivityAnalysis,
    /// Team impact analysis
    pub team_analysis: TeamImpactAnalysis,
}

/// The name of an impact factor, by its place among the five.
pub open spec fn impact_factor_name(i: int) -> Seq<char> {
    if i == 0 {
        "usage_frequency"@
    } else if i == 1 {
        "dependency_impact"@
    } else if i == 2 {
        "api_visibility"@
    } else if i == 3 {
        "development_activity"@
    } else {
        "team_impact"@
    }
}

/// Where the last greatest of the first `n` scores stands (the first place when `n` is
/// at most one).
pub open spec fn last_maximum_upto(s: Seq<int>, n: int) -> int
    decreases n,
{
    if n <= 1 {
        0
    } else {
        let best = last_maximum_upto(s, n - 1);
        if s[best] <= s[n - 1] {
            n - 1
        } else {
            best
        }
    }
}

/// Where the last greatest score of a sequence stands.
pub open spec fn primary_factor_index(s: Seq<int>) -> int {
    last_maximum_upto(s, s.len() as int)
}

/// The last place among the first `n` holds a score no smaller than any other there,
/// and greater than each after it.
proof fn lemma_last_maximum_upto(s: Seq<int>, n: int)
    requires
        1 <= n <= s.len(),
    ensures
        0 <= last_maximum_upto(s, n) < n,
        forall|j: int| 0 <= j < n ==> #[trigger] s[j] <= s[last_maximum_upto(s, n)],
        forall|j: int| last_maximum_upto(s, n) < j < n ==> #[trigger] s[j] < s[last_maximum_upto(s, n)],
    decreases n,
{
    if n > 1 {
        lemma_last_maximum_upto(s, n - 1);
    }
}

/// The primary impact factor is a greatest score, and every factor after it scores less:
/// of equal greatest scores, the last one is primary.
pub proof fn lemma_primary_factor_is_last_maximum(s: Seq<int>)
    requires
        s.len() >= 1,
    ensures
        0 <= primary_factor_index(s) < s.len(),
        forall|j: int| 0 <= j < s.len() ==> #[trigger] s[j] <= s[primary_factor_index(s)],
        forall|j: int| primary_factor_index(s) < j < s.len() ==> #[trigger] s[j] < s[primary_factor_index(s)],
{
    lemma_last_maximum_upto(s, s.len() as int);
}

impl ImpactAnalyses {
    /// The five factor scores in tenths, in the order usage, dependency, API visibility,
    /// development activity and team.
    pub open spec fn factor_scores(&self) -> Seq<int> {
        seq![
            self.usage_analysis.usage_frequency_tenths as int,
            self.dependency_analysis.dependency_impact_tenths as int,
            self.api_visibility_analysis.api_visibility_tenths as int,
            self.activity_analysis.activity_impact_tenths as int,
            self.team_analysis.team_impact_tenths as int,
        ]
    }

    /// The factor that contributes most to the impact: of equal greatest scores, the last.
    pub fn primary_impact_factor(&self) -> (r: String)
        ensures
            r@ == impact_factor_name(primary_factor_index(self.factor_scores())),
    {
        let scores: [u32; 5] = [
            self.usage_analysis.usage_frequency_tenths,
            self.dependency_analysis.dependency_impact_tenths,
            self.api_visibility_analysis.api_visibility_tenths,
            self.activity_analysis.activity_impact_tenths,
            self.team_analysis.team_impact_tenths,
        ];
        let ghost s = self.factor_scores();
        let mut best: usize = 0;
        let mut i: usize = 1;
        while i < 5
            invariant
                1 <= i <= 5,
                best < i,
                s.len() == 5,
                forall|k: int| 0 <= k < 5 ==> scores@[k] as int == s[k],
                best as int == last_maximum_upto(s, i as int),
            decreases 5 - i,
        {
            if scores[best] <= scores[i] {
                best = i;
            }
            i = i + 1;
        }
        if best == 0 {
            "usage_frequency".to_owned()
        } else if best == 1 {
            "dependency_impact".to_owned()
        } else if best == 2 {
            "api_visibility".to_owned()
        } else if best == 3 {
            "development_activity".to_owned()
        } else {
            "team_impact".to_owned()
        }
    }
}

/// Runs the five analyses of a gap.
pub fn analyze_gap_impact(gap: &DetectedGap) -> (a: ImpactAnalyses)
    ensures
        a.usage_analysis.usage_frequency_tenths == capped_score(
            usage_base_tenths(gap.gap_type) + usage_location_tenths(file_location_of(gap.file_path@)),
        ),
        a.usage_analysis.referencing_files == usage_referencing_files(file_location_of(gap.file_path@)),
        a.usage_analysis.analysis_confidence_percent == usage_confidence(gap.gap_type),
        a.dependency_analysis.dependency_impact_tenths == capped_score(
            dependency_base_tenths(gap.gap_type) + dependency_location_tenths(file_location_of(gap.file_path@)),
        ),
        a.dependency_analysis.reverse_dependencies == dependency_base_dependents(gap.gap_type)
            + dependency_location_dependents(file_location_of(gap.file_path@)),
        a.dependency_analysis.analysis_confidence_percent == dependency_confidence(gap.gap_type),
        a.api_visibility_analysis.has_public_api == (gap.gap_type == GapType::ApiDocumentationGap
            || shows_public_item(gap.context@)),
        a.api_visibility_analysis.api_visibility_tenths == capped_score(
            visibility_base_tenths(gap.gap_type) + (if shows_public_item(gap.context@) { 20int } else { 0int }),
        ),
        a.api_visibility_analysis.analysis_confidence_percent == visibility_confidence(gap.gap_type),
        a.activity_analysis.actively_developed == actively_developed_type(gap.gap_type),
        a.activity_analysis.activity_impact_tenths == activity_tenths(gap.gap_type),
        a.activity_analysis.analysis_confidence_percent == activity_confidence(gap.gap_type),
        a.team_analysis.team_impact_tenths == team_tenths_of(gap.gap_type),
        string_views(a.team_analysis.critical_workflows@) == team_workflows(gap.gap_type),
        a.team_analysis.analysis_confidence_percent == team_confidence(gap.gap_type),
{
    ImpactAnalyses {
        usage_analysis: analyze_usage_patterns(gap),
        dependency_analysis: analyze_dependency_impact(gap),
        api_visibility_analysis: analyze_api_visibility(gap),
        activity_analysis: analyze_development_activity(gap),
        team_analysis: analyze_team_impact(gap),
    }
}

/// The complaint about an assessment's limits, if it has one: a dependency depth of
/// zero first, then an analysis time of zero.
pub open spec fn analysis_limits_error(max_dependency_depth: usize, max_analysis_time_ms: u64) -> Option<Seq<char>> {
    if max_dependency_depth == 0 {
        Some("max_dependency_depth must be greater than 0"@)
    } else if max_analysis_time_ms == 0 {
        Some("max_analysis_time_ms must be greater than 0"@)
    } else {
        None
    }
}

/// Checks the depth and time limits of an impact assessment configuration.
pub fn check_analysis_limits(max_dependency_depth: usize, max_analysis_time_ms: u64) -> (r: Result<(), String>)
    ensures
        match analysis_limits_error(max_dependency_depth, max_analysis_time_ms) {
            None => r is Ok,
            Some(m) => r matches Err(e) && e@ == m,
        },
{
    if max_dependency_depth == 0 {
        Err("max_dependency_depth must be greater than 0".to_owned())
    } else if max_analysis_time_ms == 0 {
        Err("max_analysis_time_ms must be greater than 0".to_owned())
    } else {
        Ok(())
    }
}

/// Every impact factor scores between zero and ten points, whatever the gap's type,
/// location and context.
pub proof fn lemma_scores_within_ten_points(t: GapType, l: FileLocation, public_item: bool)
    ensures
        0 <= capped_score(usage_base_tenths(t) + usage_location_tenths(l)) <= 100,
        0 <= capped_score(dependency_base_tenths(t) + dependency_location_tenths(l)) <= 100,
        0 <= capped_score(visibility_base_tenths(t) + (if public_item { 20int } else { 0int })) <= 100,
        0 <= activity_tenths(t) <= 100,
        0 <= team_tenths_of(t) <= 100,
{
}

} // verus!
