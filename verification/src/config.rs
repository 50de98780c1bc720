//! Gap filtering rules: custom priority rules, exclusion rules and validation rules, and
//! how a detected gap is judged against them.

use vstd::prelude::*;
use crate::patterns::{compile_pattern, error_message, pattern_sources, regex_compiles, CompiledPattern};
use crate::text::{contains_seq, lowercase, str_contains, string_views, to_lowercase};

verus! {

/// Custom priority rule definition.
#[derive(Debug, Clone, PartialEq, Eq)]
pub struct CustomPriorityRule {
    /// Rule name for identification
    pub name: String,
    /// File path pattern (regex)
    pub file_pattern: Option<String>,
    /// Gap type pattern
    pub gap_type_pattern: Option<String>,
    /// Content pattern (regex)
    pub content_pattern: Option<String>,
    /// Priority adjustment (can be negative)
    pub priority_adjustment: i8,
    /// Rule description
    pub description: String,
}

/// Rules for excluding gaps from results.
#[derive(Debug, Clone, PartialEq, Eq)]
pub struct ExclusionRules {
    /// Patterns to exclude from gap detection (regex)
    pub exclude_patterns: Vec<String>,
    /// File paths to exclude
    pub exclude_file_paths: Vec<String>,
    /// Gap types to exclude, by name
    pub exclude_gap_types: Vec<String>,
    /// Keywords that mark gaps as not actionable
    pub non_actionable_keywords: Vec<String>,
}

impl Default for ExclusionRules {
    fn default() -> (r: ExclusionRules)
        ensures
            string_views(r.exclude_patterns@) == seq!["(?i)test.*only"@, "(?i)debug.*only"@, "(?i)temporary"@],
            string_views(r.exclude_file_paths@) == seq!["target/"@, "tests/fixtures/"@],
            r.exclude_gap_types@ == Seq::<String>::empty(),
            string_views(r.non_actionable_keywords@) == seq!["maybe"@, "eventually"@, "someday"@, "nice to have"@],
    {
        let r = ExclusionRules {
            exclude_patterns: vec![
                "(?i)test.*only".to_owned(),
                "(?i)debug.*only".to_owned(),
                "(?i)temporary".to_owned(),
            ],
            exclude_file_paths: vec!["target/".to_owned(), "tests/fixtures/".to_owned()],
            exclude_gap_types: Vec::new(),
            non_actionable_keywords: vec![
                "maybe".to_owned(),
                "eventually".to_owned(),
                "someday".to_owned(),
                "nice to have".to_owned(),
            ],
        };
        assert(string_views(r.exclude_patterns@) =~= seq!["(?i)test.*only"@, "(?i)debug.*only"@, "(?i)temporary"@]);
        assert(string_views(r.exclude_file_paths@) =~= seq!["target/"@, "tests/fixtures/"@]);
        assert(string_views(r.non_actionable_keywords@) =~= seq!["maybe"@, "eventually"@, "someday"@, "nice to have"@]);
        r
    }
}

impl ExclusionRules {
    /// The first non-actionable keyword that occurs in the description, both taken in
    /// lower case.
    pub open spec fn first_keyword_hit(&self, description: Seq<char>, from: int) -> Option<int>
        decreases self.non_actionable_keywords@.len() - from,
    {
        if from < 0 || from >= self.non_actionable_keywords@.len() {
            None
        } else if contains_seq(lowercase(description), lowercase(self.non_actionable_keywords@[from]@)) {
            Some(from)
        } else {
            self.first_keyword_hit(description, from + 1)
        }
    }

    /// The first non-actionable keyword found in the description, compared in lower case.
    pub fn non_actionable_keyword(&self, description: &str) -> (r: Option<usize>)
        ensures
            match r {
                Some(i) => self.first_keyword_hit(description@, 0) == Some(i as int) && i < self.non_actionable_keywords@.len(),
                None => self.first_keyword_hit(description@, 0) is None,
            },
    {
        let lowered = to_lowercase(description);
        let mut i: usize = 0;
        while i < self.non_actionable_keywords.len()
            invariant
                i <= self.non_actionable_keywords@.len(),
                lowered@ == lowercase(description@),
                self.first_keyword_hit(description@, 0) == self.first_keyword_hit(description@, i as int),
            decreases self.non_actionable_keywords.len() - i,
        {
            let kw = to_lowercase(self.non_actionable_keywords[i].as_str());
            if str_contains(lowered.as_str(), kw.as_str()) {
                return Some(i);
            }
            i = i + 1;
        }
        None
    }

    /// Whether a gap type, by name, is excluded.
    pub fn excludes_gap_type(&self, gap_type_name: &str) -> (r: bool)
        ensures
            r == exists|i: int| 0 <= i < self.exclude_gap_types@.len() && #[trigger] string_views(self.exclude_gap_types@)[i] == gap_type_name@,
    {
        let mut i: usize = 0;
        while i < self.exclude_gap_types.len()
            invariant
                i <= self.exclude_gap_types@.len(),
                forall|k: int| 0 <= k < i ==> #[trigger] string_views(self.exclude_gap_types@)[k] != gap_type_name@,
            decreases self.exclude_gap_types.len() - i,
        {
            if crate::text::str_equal(self.exclude_gap_types[i].as_str(), gap_type_name) {
                assert(string_views(self.exclude_gap_types@)[i as int] == self.exclude_gap_types@[i as int]@);
                return true;
            }
            i = i + 1;
        }
        false
    }
}

/// Rules for validating detected gaps.
#[derive(Debug, Clone, PartialEq, Eq)]
pub struct ValidationRules {
    /// Require minimum context length (in bytes)
    pub min_context_length: usize,
    /// Require valid line numbers
    pub require_valid_line_numbers: bool,
    /// Validate file existence
    pub validate_file_existence: bool,
    /// Custom validation patterns
    pub custom_validation_patterns: Vec<String>,
}

impl Default for ValidationRules {
    fn default() -> (r: ValidationRules)
        ensures
            r.min_context_length == 5,
            r.require_valid_line_numbers,
            r.validate_file_existence,
            r.custom_validation_patterns@ == Seq::<String>::empty(),
    {
        ValidationRules {
            min_context_length: 5,
            require_valid_line_numbers: true,
            validate_file_existence: true,
            custom_validation_patterns: Vec::new(),
        }
    }
}

/// How a gap fares against the validation rules, check by check.
#[derive(Debug, Clone, Copy, PartialEq, Eq, Structural)]
pub struct ValidationOutcome {
    pub context_length_ok: bool,
    pub line_number_ok: bool,
    pub file_existence_ok: bool,
}

impl ValidationOutcome {
    /// All checks passed.
    pub open spec fn passed(self) -> bool {
        self.context_length_ok && self.line_number_ok && self.file_existence_ok
    }
}

impl ValidationRules {
    /// Judge a gap whose context is `context`, found at `line_number` (1-based, 0 for
    /// none) in a file that does or does not exist: the context must be at least the
    /// minimum length in bytes, the line number non-zero when required, and the file
    /// present when required.
    pub fn evaluate(&self, context: &str, line_number: usize, file_exists: bool) -> (r: ValidationOutcome)
        ensures
            r.context_length_ok == (context.len() >= self.min_context_length),
            r.line_number_ok == !(self.require_valid_line_numbers && line_number == 0),
            r.file_existence_ok == !(self.validate_file_existence && !file_exists),
    {
        ValidationOutcome {
            context_length_ok: context.len() >= self.min_context_length,
            line_number_ok: !(self.require_valid_line_numbers && line_number == 0),
            file_existence_ok: !(self.validate_file_existence && !file_exists),
        }
    }
}


/// Errors raised by configuration validation (those about integer settings and rules).
#[derive(Debug, Clone, PartialEq, Eq)]
pub enum ConfigurationError {
    InvalidRegex { context: String, pattern: String, error: String },
    InvalidFileExtension { extension: String },
    InvalidPriority { priority: u8 },
    InvalidPerformanceLimit { field: String, value: u64 },
    RuleValidation { rule_name: String, error: String },
    PresetNotFound { preset: String },
}

/// The size and time limits of gap detection, each of which must be positive.
#[derive(Debug, Clone, Copy, PartialEq, Eq, Structural)]
pub struct PerformanceLimits {
    pub max_file_size_bytes: u64,
    pub analysis_timeout_ms: u64,
    pub max_total_time_ms: u64,
    pub max_analysis_time_ms: u64,
    pub max_memory_per_analysis_bytes: u64,
}

/// The first zero limit, in the order the limits are listed, with its field name.
pub open spec fn first_zero_limit(l: PerformanceLimits) -> Option<Seq<char>> {
    if l.max_file_size_bytes == 0 {
        Some("max_file_size_bytes"@)
    } else if l.analysis_timeout_ms == 0 {
        Some("analysis_timeout_ms"@)
    } else if l.max_total_time_ms == 0 {
        Some("max_total_time_ms"@)
    } else if l.max_analysis_time_ms == 0 {
        Some("max_analysis_time_ms"@)
    } else if l.max_memory_per_analysis_bytes == 0 {
        Some("max_memory_per_analysis_bytes"@)
    } else {
        None
    }
}

/// Refuse the first zero limit.
pub fn validate_performance_limits(l: &PerformanceLimits) -> (r: Result<(), ConfigurationError>)
    ensures
        match first_zero_limit(*l) {
            None => r is Ok,
            Some(f) => r matches Err(ConfigurationError::InvalidPerformanceLimit { field, value }) && field@ == f && value == 0,
        },
{
    let field = if l.max_file_size_bytes == 0 {
        "max_file_size_bytes"
    } else if l.analysis_timeout_ms == 0 {
        "analysis_timeout_ms"
    } else if l.max_total_time_ms == 0 {
        "max_total_time_ms"
    } else if l.max_analysis_time_ms == 0 {
        "max_analysis_time_ms"
    } else if l.max_memory_per_analysis_bytes == 0 {
        "max_memory_per_analysis_bytes"
    } else {
        return Ok(());
    };
    Err(ConfigurationError::InvalidPerformanceLimit { field: field.to_owned(), value: 0 })
}

/// A priority on the 1 to 10 scale.
pub open spec fn priority_in_range(p: u8) -> bool {
    1 <= p <= 10
}

/// Check the priority settings: every base priority and both bounds lie on the 1 to 10
/// scale, the first failing base priority (in the order given) reported first, and the
/// minimum does not exceed the maximum.
pub fn validate_priority_config(base_priorities: &Vec<(String, u8)>, min_priority: u8, max_priority: u8) -> (r: Result<(), ConfigurationError>)
    ensures
        (forall|i: int| 0 <= i < base_priorities@.len() ==> priority_in_range(#[trigger] base_priorities@[i].1))
            && priority_in_range(min_priority) && priority_in_range(max_priority) && min_priority <= max_priority
            <==> r is Ok,
        (exists|i: int| 0 <= i < base_priorities@.len() && !priority_in_range(#[trigger] base_priorities@[i].1)) ==> exists|i: int|
            0 <= i < base_priorities@.len() && !priority_in_range(#[trigger] base_priorities@[i].1)
                && (forall|k: int| 0 <= k < i ==> priority_in_range(#[trigger] base_priorities@[k].1))
                && r == Err::<(), ConfigurationError>(ConfigurationError::InvalidPriority { priority: base_priorities@[i].1 }),
        (forall|i: int| 0 <= i < base_priorities@.len() ==> priority_in_range(#[trigger] base_priorities@[i].1)) ==> {
            if !priority_in_range(min_priority) {
                r == Err::<(), ConfigurationError>(ConfigurationError::InvalidPriority { priority: min_priority })
            } else if !priority_in_range(max_priority) {
                r == Err::<(), ConfigurationError>(ConfigurationError::InvalidPriority { priority: max_priority })
            } else if min_priority > max_priority {
                r matches Err(ConfigurationError::RuleValidation { rule_name, error }) && rule_name@ == "priority_bounds"@
                    && error@ == "min_priority cannot be greater than max_priority"@
            } else {
                r is Ok
            }
        },
{
    let mut i: usize = 0;
    while i < base_priorities.len()
        invariant
            i <= base_priorities@.len(),
            forall|k: int| 0 <= k < i ==> priority_in_range(#[trigger] base_priorities@[k].1),
        decreases base_priorities.len() - i,
    {
        let p = base_priorities[i].1;
        if !(1 <= p && p <= 10) {
            return Err(ConfigurationError::InvalidPriority { priority: p });
        }
        i = i + 1;
    }
    if !(1 <= min_priority && min_priority <= 10) {
        return Err(ConfigurationError::InvalidPriority { priority: min_priority });
    }
    if !(1 <= max_priority && max_priority <= 10) {
        return Err(ConfigurationError::InvalidPriority { priority: max_priority });
    }
    if min_priority > max_priority {
        return Err(ConfigurationError::RuleValidation {
            rule_name: "priority_bounds".to_owned(),
            error: "min_priority cannot be greater than max_priority".to_owned(),
        });
    }
    Ok(())
}

/// The first pattern of a list, in order, that `regex::Regex::new` refuses.
pub open spec fn first_invalid_pattern(patterns: Seq<Seq<char>>) -> Option<Seq<char>>
    decreases patterns.len(),
{
    if patterns.len() == 0 {
        None
    } else if !regex_compiles(patterns[0]) {
        Some(patterns[0])
    } else {
        first_invalid_pattern(patterns.drop_first())
    }
}

/// Compile every pattern of a list, in order; the first that fails is reported with
/// the context it was configured in.
pub fn compile_patterns_in(context: &str, patterns: &Vec<String>) -> (r: Result<Vec<CompiledPattern>, ConfigurationError>)
    ensures
        match r {
            Ok(v) => first_invalid_pattern(string_views(patterns@)) is None && pattern_sources(v@) == string_views(patterns@),
            Err(e) => (e matches ConfigurationError::InvalidRegex { context: c, pattern: p, .. } && c@ == context@
                && first_invalid_pattern(string_views(patterns@)) == Some(p@)),
        },
{
    let ghost views = string_views(patterns@);
    let mut compiled: Vec<CompiledPattern> = Vec::new();
    let mut i: usize = 0;
    assert(views.skip(0) =~= views);
    while i < patterns.len()
        invariant
            i <= patterns@.len(),
            views == string_views(patterns@),
            first_invalid_pattern(views) == first_invalid_pattern(views.skip(i as int)),
            pattern_sources(compiled@) == views.take(i as int),
        decreases patterns.len() - i,
    {
        let ghost rest = views.skip(i as int);
        assert(rest[0] == patterns@[i as int]@);
        match compile_pattern(patterns[i].as_str()) {
            Ok(p) => {
                let ghost before = compiled@;
                compiled.push(p);
                proof {
                    assert(rest.drop_first() =~= views.skip(i + 1));
                    assert(pattern_sources(compiled@) =~= pattern_sources(before).push(p.source()));
                    assert(views.take(i + 1) =~= views.take(i as int).push(views[i as int]));
                }
            },
            Err(e) => {
                let message = error_message(&e);
                return Err(ConfigurationError::InvalidRegex {
                    context: context.to_owned(),
                    pattern: patterns[i].clone(),
                    error: message,
                });
            },
        }
        i = i + 1;
    }
    assert(views.take(i as int) =~= views);
    Ok(compiled)
}

/// The first refused pattern of the gap detection settings, with the context it is
/// reported in: the custom TODO patterns, then the documentation, technology and
/// excluded-file patterns.
pub open spec fn regex_validation_error(
    todo: Seq<Seq<char>>,
    documentation: Seq<Seq<char>>,
    technology: Seq<Seq<char>>,
    excluded_files: Seq<Seq<char>>,
) -> Option<(Seq<char>, Seq<char>)> {
    match first_invalid_pattern(todo) {
        Some(p) => Some(("TODO custom patterns"@, p)),
        None => match first_invalid_pattern(documentation) {
            Some(p) => Some(("Documentation patterns"@, p)),
            None => match first_invalid_pattern(technology) {
                Some(p) => Some(("Technology patterns"@, p)),
                None => match first_invalid_pattern(excluded_files) {
                    Some(p) => Some(("Excluded file patterns"@, p)),
                    None => None,
                },
            },
        },
    }
}

/// Validate the regular expressions of the gap detection settings.
pub fn validate_regex_patterns(
    todo_patterns: &Vec<String>,
    documentation_patterns: &Vec<String>,
    technology_patterns: &Vec<String>,
    excluded_file_patterns: &Vec<String>,
) -> (r: Result<(), ConfigurationError>)
    ensures
        match r {
            Ok(()) => regex_validation_error(string_views(todo_patterns@), string_views(documentation_patterns@),
                string_views(technology_patterns@), string_views(excluded_file_patterns@)) is None,
            Err(e) => (e matches ConfigurationError::InvalidRegex { context: c, pattern: p, .. }
                && regex_validation_error(string_views(todo_patterns@), string_views(documentation_patterns@),
                    string_views(technology_patterns@), string_views(excluded_file_patterns@)) == Some((c@, p@))),
        },
{
    match compile_patterns_in("TODO custom patterns", todo_patterns) {
        Ok(_) => {},
        Err(e) => return Err(e),
    }
    match compile_patterns_in("Documentation patterns", documentation_patterns) {
        Ok(_) => {},
        Err(e) => return Err(e),
    }
    match compile_patterns_in("Technology patterns", technology_patterns) {
        Ok(_) => {},
        Err(e) => return Err(e),
    }
    match compile_patterns_in("Excluded file patterns", excluded_file_patterns) {
        Ok(_) => {},
        Err(e) => return Err(e),
    }
    Ok(())
}

} // verus!
