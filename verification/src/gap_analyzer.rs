//! Knowledge gap detection: TODO comments, undocumented public items, external crates,
//! API documentation without examples and configuration keys, found with regular
//! expressions over a file's content and filtered by confidence.

use vstd::prelude::*;
use crate::patterns::{
    compile_pattern, compile_pattern_set, pattern_group, pattern_set_matches, regex_compiles, regex_group, regex_set_compiles,
    regex_set_is_match, capture_group, capture_view, capture_views, group_of, whole_match, CompiledPattern,
    CompiledPatternSet, PatternCapture, pattern_captures, regex_captures,
};
use crate::text::{contains_seq, starts_with_seq, str_contains, str_equal, str_starts_with, string_views, text_lines, lines_of, trim, trimmed,
    count_newlines, first_segment, newline_count, split_first};

verus! {

/// Type of knowledge gap detected.
#[derive(Debug, Clone, Copy, PartialEq, Eq, Structural, Hash)]
pub enum GapType {
    /// TODO/FIXME/HACK comments
    TodoComment,
    /// Missing function/struct documentation
    MissingDocumentation,
    /// Undocumented technology/dependency
    UndocumentedTechnology,
    /// Public API without proper documentation
    ApiDocumentationGap,
    /// Configuration option not documented
    ConfigurationGap,
}

/// Priority score of a gap type (1-10, higher is more urgent).
pub open spec fn gap_priority(t: GapType) -> u8 {
    match t {
        GapType::TodoComment => 7,
        GapType::MissingDocumentation => 6,
        GapType::UndocumentedTechnology => 8,
        GapType::ApiDocumentationGap => 9,
        GapType::ConfigurationGap => 5,
    }
}

impl GapType {
    /// Get the priority score for this gap type (1-10, higher is more urgent).
    pub fn priority(&self) -> (p: u8)
        ensures
            p == gap_priority(*self),
            1 <= p <= 10,
    {
        match self {
            GapType::TodoComment => 7,
            GapType::MissingDocumentation => 6,
            GapType::UndocumentedTechnology => 8,
            GapType::ApiDocumentationGap => 9,
            GapType::ConfigurationGap => 5,
        }
    }
}

/// The name of a gap type as its `Debug` form prints it.
pub open spec fn gap_type_name(t: GapType) -> Seq<char> {
    match t {
        GapType::TodoComment => "TodoComment"@,
        GapType::MissingDocumentation => "MissingDocumentation"@,
        GapType::UndocumentedTechnology => "UndocumentedTechnology"@,
        GapType::ApiDocumentationGap => "ApiDocumentationGap"@,
        GapType::ConfigurationGap => "ConfigurationGap"@,
    }
}

impl GapType {
    /// The name of the gap type, as its `Debug` form prints it.
    pub fn debug_name(&self) -> (s: &'static str)
        ensures
            s@ == gap_type_name(*self),
    {
        match self {
            GapType::TodoComment => "TodoComment",
            GapType::MissingDocumentation => "MissingDocumentation",
            GapType::UndocumentedTechnology => "UndocumentedTechnology",
            GapType::ApiDocumentationGap => "ApiDocumentationGap",
            GapType::ConfigurationGap => "ConfigurationGap",
        }
    }
}

/// The display name of a gap type.
pub open spec fn gap_type_label(t: GapType) -> Seq<char> {
    match t {
        GapType::TodoComment => "todo_comment"@,
        GapType::MissingDocumentation => "missing_documentation"@,
        GapType::UndocumentedTechnology => "undocumented_technology"@,
        GapType::ApiDocumentationGap => "api_documentation_gap"@,
        GapType::ConfigurationGap => "configuration_gap"@,
    }
}

impl GapType {
    /// The display name of the gap type, in snake case.
    pub fn to_string(&self) -> (s: String)
        ensures
            s@ == gap_type_label(*self),
    {
        match self {
            GapType::TodoComment => "todo_comment".to_owned(),
            GapType::MissingDocumentation => "missing_documentation".to_owned(),
            GapType::UndocumentedTechnology => "undocumented_technology".to_owned(),
            GapType::ApiDocumentationGap => "api_documentation_gap".to_owned(),
            GapType::ConfigurationGap => "configuration_gap".to_owned(),
        }
    }
}

/// A trimmed line that documents the item below it: a `///` or `//!` comment, the start
/// or end of a block comment, or a `#[doc` attribute.
pub open spec fn is_doc_line(t: Seq<char>) -> bool {
    starts_with_seq(t, "///"@) || starts_with_seq(t, "//!"@) || starts_with_seq(t, "/**"@)
        || contains_seq(t, "*/"@) || starts_with_seq(t, "#[doc"@)
}

/// A trimmed line that mentions an example: a code fence or the word `Example`/`example`.
pub open spec fn is_example_line(t: Seq<char>) -> bool {
    contains_seq(t, "```"@) || contains_seq(t, "Example"@) || contains_seq(t, "example"@)
}

/// Some line among the `window` lines just above `line_idx` (those that exist) satisfies
/// `p` once trimmed; never for the first line.
pub open spec fn some_line_above(lines: Seq<Seq<char>>, line_idx: int, window: int, p: spec_fn(Seq<char>) -> bool) -> bool {
    line_idx != 0 && exists|k: int|
        (if line_idx >= window { line_idx - window } else { 0 }) <= k < line_idx && k < lines.len() && p(trimmed(#[trigger] lines[k]))
}

/// Whether any of the `window` lines above `line_idx` satisfies the test selected by
/// `examples` (example lines when set, doc lines otherwise).
fn scan_above(lines: &Vec<String>, line_idx: usize, window: usize, examples: bool) -> (r: bool)
    ensures
        r == some_line_above(string_views(lines@), line_idx as int, window as int,
            if examples { |t: Seq<char>| is_example_line(t) } else { |t: Seq<char>| is_doc_line(t) }),
{
    let ghost p = if examples { |t: Seq<char>| is_example_line(t) } else { |t: Seq<char>| is_doc_line(t) };
    let ghost views = string_views(lines@);
    if line_idx == 0 {
        return false;
    }
    let start: usize = if line_idx >= window { line_idx - window } else { 0 };
    let end: usize = if line_idx < lines.len() { line_idx } else { lines.len() };
    if start >= end {
        return false;
    }
    let mut k: usize = start;
    while k < end
        invariant
            start <= end,
            end <= lines@.len(),
            end <= line_idx,
            start <= k <= end,
            start == (if line_idx >= window { line_idx - window } else { 0 }),
            views == string_views(lines@),
            p == (if examples { |t: Seq<char>| is_example_line(t) } else { |t: Seq<char>| is_doc_line(t) }),
            forall|j: int| start <= j < k ==> !p(trimmed(#[trigger] views[j])),
        decreases end - k,
    {
        let t = trim(lines[k].as_str());
        assert(views[k as int] == lines@[k as int]@);
        let hit = if examples {
            str_contains(t.as_str(), "```") || str_contains(t.as_str(), "Example") || str_contains(t.as_str(), "example")
        } else {
            str_starts_with(t.as_str(), "///") || str_starts_with(t.as_str(), "//!") || str_starts_with(t.as_str(), "/**")
                || str_contains(t.as_str(), "*/") || str_starts_with(t.as_str(), "#[doc")
        };
        if hit {
            assert(p(trimmed(views[k as int])));
            return true;
        }
        k = k + 1;
    }
    false
}

/// Check if there's documentation within the three lines above a given line.
pub fn has_documentation_above(lines: &Vec<String>, line_idx: usize) -> (r: bool)
    ensures
        r == some_line_above(string_views(lines@), line_idx as int, 3, |t: Seq<char>| is_doc_line(t)),
{
    scan_above(lines, line_idx, 3, false)
}

/// Check if the ten lines above a given line mention examples.
pub fn has_examples_in_documentation(lines: &Vec<String>, line_idx: usize) -> (r: bool)
    ensures
        r == some_line_above(string_views(lines@), line_idx as int, 10, |t: Seq<char>| is_example_line(t)),
{
    scan_above(lines, line_idx, 10, true)
}

/// The crate names that are part of the language or refer to the current crate.
pub open spec fn is_builtin_crate_name(name: Seq<char>) -> bool {
    name == "std"@ || name == "core"@ || name == "alloc"@ || name == "proc_macro"@ || name == "test"@
        || name == "super"@ || name == "self"@ || name == "crate"@
}

/// A crate name that is likely an external dependency: not a built-in name and not a
/// path within the current crate.
pub open spec fn is_external_crate_name(name: Seq<char>) -> bool {
    !is_builtin_crate_name(name) && !starts_with_seq(name, "crate::"@) && !starts_with_seq(name, "super::"@)
        && !starts_with_seq(name, "self::"@)
}

/// Check if a crate name is likely an external dependency.
pub fn is_external_crate(crate_name: &str) -> (r: bool)
    ensures
        r == is_external_crate_name(crate_name@),
{
    let builtin = str_equal(crate_name, "std") || str_equal(crate_name, "core") || str_equal(crate_name, "alloc")
        || str_equal(crate_name, "proc_macro") || str_equal(crate_name, "test") || str_equal(crate_name, "super")
        || str_equal(crate_name, "self") || str_equal(crate_name, "crate");
    !builtin && !str_starts_with(crate_name, "crate::") && !str_starts_with(crate_name, "super::")
        && !str_starts_with(crate_name, "self::")
}

/// The roots of the language's own crates (`std`, `core`, `alloc`, `proc_macro`,
/// `test`) and of paths within the current crate (`super`, `self`, `crate`) are never
/// taken for external crates, nor is a path that starts within the current crate
/// (`crate::`, `super::`, `self::`); every other single name, one without a `:`, is.
pub proof fn lemma_external_crate_names(name: Seq<char>)
    ensures
        name == "std"@ ==> !is_external_crate_name(name),
        name == "core"@ ==> !is_external_crate_name(name),
        name == "alloc"@ ==> !is_external_crate_name(name),
        name == "proc_macro"@ ==> !is_external_crate_name(name),
        name == "test"@ ==> !is_external_crate_name(name),
        name == "super"@ ==> !is_external_crate_name(name),
        name == "self"@ ==> !is_external_crate_name(name),
        name == "crate"@ ==> !is_external_crate_name(name),
        starts_with_seq(name, "crate::"@) || starts_with_seq(name, "super::"@) || starts_with_seq(name, "self::"@)
            ==> !is_external_crate_name(name),
        !name.contains(':') && name != "std"@ && name != "core"@ && name != "alloc"@ && name != "proc_macro"@
            && name != "test"@ && name != "super"@ && name != "self"@ && name != "crate"@
            ==> is_external_crate_name(name),
{
    reveal_strlit("crate::");
    reveal_strlit("super::");
    reveal_strlit("self::");
    if !name.contains(':') {
        if starts_with_seq(name, "crate::"@) {
            assert(name[5] == name.subrange(0, 7)[5]);
            assert(name.contains(name[5]));
        }
        if starts_with_seq(name, "super::"@) {
            assert(name[5] == name.subrange(0, 7)[5]);
            assert(name.contains(name[5]));
        }
        if starts_with_seq(name, "self::"@) {
            assert(name[4] == name.subrange(0, 6)[4]);
            assert(name.contains(name[4]));
        }
    }
}

/// What a detected gap says, as plain values.
pub struct GapRecord {
    pub gap_type: GapType,
    pub file_path: Seq<char>,
    pub line_number: int,
    pub column_number: Option<usize>,
    pub context: Seq<char>,
    pub description: Seq<char>,
    pub confidence_percent: u8,
    pub priority: u8,
    pub metadata: Seq<(Seq<char>, Seq<char>)>,
}

/// A detected knowledge gap.
#[derive(Debug, Clone)]
pub struct DetectedGap {
    /// Type of gap detected
    pub gap_type: GapType,
    /// File where the gap was found
    pub file_path: String,
    /// Line number where the gap was detected (1-based)
    pub line_number: usize,
    /// Column number where the gap was detected (1-based, optional)
    pub column_number: Option<usize>,
    /// Context around the gap (the actual content)
    pub context: String,
    /// Extracted information about what needs to be done
    pub description: String,
    /// Confidence, in percent
    pub confidence_percent: u8,
    /// Priority score (1-10, higher is more urgent)
    pub priority: u8,
    /// Additional metadata specific to the gap type, each key once
    pub metadata: Vec<(String, String)>,
}

/// The plain values of metadata entries.
pub open spec fn metadata_view(m: Seq<(String, String)>) -> Seq<(Seq<char>, Seq<char>)> {
    m.map_values(|p: (String, String)| (p.0@, p.1@))
}

impl View for DetectedGap {
    type V = GapRecord;

    open spec fn view(&self) -> GapRecord {
        GapRecord {
            gap_type: self.gap_type,
            file_path: self.file_path@,
            line_number: self.line_number as int,
            column_number: self.column_number,
            context: self.context@,
            description: self.description@,
            confidence_percent: self.confidence_percent,
            priority: self.priority,
            metadata: metadata_view(self.metadata@),
        }
    }
}

/// `i` is the first entry of `m` whose key is `key`.
pub open spec fn first_entry_with_key(m: Seq<(Seq<char>, Seq<char>)>, key: Seq<char>, i: int) -> bool {
    0 <= i < m.len() && m[i].0 == key && forall|k: int| 0 <= k < i ==> m[k].0 != key
}

/// The metadata after setting `key` to `value`: the first entry of `key` replaced where
/// it has one, else a new entry at the end.
pub open spec fn metadata_set(m: Seq<(Seq<char>, Seq<char>)>, key: Seq<char>, value: Seq<char>) -> Seq<(Seq<char>, Seq<char>)> {
    if exists|i: int| first_entry_with_key(m, key, i) {
        m.update(choose|i: int| first_entry_with_key(m, key, i), (key, value))
    } else {
        m.push((key, value))
    }
}

/// The value of the first entry of `key` in `m`, if it has one.
pub open spec fn metadata_get(m: Seq<(Seq<char>, Seq<char>)>, key: Seq<char>) -> Option<Seq<char>> {
    if exists|i: int| first_entry_with_key(m, key, i) {
        Some(m[choose|i: int| first_entry_with_key(m, key, i)].1)
    } else {
        None
    }
}

/// Setting a metadata key and reading it back gives the value set; reading any other
/// key gives what it gave before.
pub proof fn lemma_metadata_set_then_get(m: Seq<(Seq<char>, Seq<char>)>, key: Seq<char>, value: Seq<char>, other: Seq<char>)
    requires
        other != key,
    ensures
        metadata_get(metadata_set(m, key, value), key) == Some(value),
        metadata_get(metadata_set(m, key, value), other) == metadata_get(m, other),
{
    let m2 = metadata_set(m, key, value);
    if exists|i: int| first_entry_with_key(m, key, i) {
        let i = choose|i: int| first_entry_with_key(m, key, i);
        assert(m2 == m.update(i, (key, value)));
        assert(first_entry_with_key(m2, key, i));
        let c = choose|c: int| first_entry_with_key(m2, key, c);
        assert(c == i) by {
            if c < i {
                assert(m2[c] == m[c]);
            } else if c > i {
                assert(m2[i].0 == key);
            }
        }
        assert forall|j: int| 0 <= j < m.len() implies #[trigger] m2[j].0 == m[j].0 by {
            if j == i {
                assert(m[i].0 == key);
            }
        }
        if exists|j: int| first_entry_with_key(m, other, j) {
            let j = choose|j: int| first_entry_with_key(m, other, j);
            assert(j != i);
            assert(first_entry_with_key(m2, other, j));
            let d = choose|d: int| first_entry_with_key(m2, other, d);
            assert(d == j) by {
                if d < j {
                    assert(m2[d].0 == m[d].0);
                } else if d > j {
                    assert(m2[j].0 == other);
                }
            }
        } else {
            assert forall|d: int| !first_entry_with_key(m2, other, d) by {
                if first_entry_with_key(m2, other, d) {
                    assert(m2[d].0 == m[d].0);
                    assert forall|k: int| 0 <= k < d implies m[k].0 != other by {
                        assert(m2[k].0 == m[k].0);
                    }
                    assert(first_entry_with_key(m, other, d));
                }
            }
        }
    } else {
        assert(m2 == m.push((key, value)));
        let n = m.len() as int;
        assert forall|k: int| 0 <= k < n implies m[k].0 != key by {
            if m[k].0 == key {
                lemma_first_key_exists(m, key, k);
            }
        }
        assert(first_entry_with_key(m2, key, n));
        let c = choose|c: int| first_entry_with_key(m2, key, c);
        assert(c == n) by {
            if c < n {
                assert(m2[c] == m[c]);
            } else if c > n {
                assert(m2[n].0 == key);
            }
        }
        if exists|j: int| first_entry_with_key(m, other, j) {
            let j = choose|j: int| first_entry_with_key(m, other, j);
            assert(first_entry_with_key(m2, other, j));
            let d = choose|d: int| first_entry_with_key(m2, other, d);
            assert(d == j) by {
                if d < j {
                    assert(m2[d] == m[d]);
                } else if d > j {
                    assert(m2[j] == m[j]);
                }
            }
        } else {
            assert forall|d: int| !first_entry_with_key(m2, other, d) by {
                if first_entry_with_key(m2, other, d) {
                    if d == n {
                        assert(m2[n].0 == key);
                    } else {
                        assert(m2[d] == m[d]);
                        assert forall|k: int| 0 <= k < d implies m[k].0 != other by {
                            assert(m2[k] == m[k]);
                        }
                        assert(first_entry_with_key(m, other, d));
                    }
                }
            }
        }
    }
}

/// When some entry of `m` has `key`, a first one does.
proof fn lemma_first_key_exists(m: Seq<(Seq<char>, Seq<char>)>, key: Seq<char>, k: int)
    requires
        0 <= k < m.len(),
        m[k].0 == key,
    ensures
        exists|i: int| first_entry_with_key(m, key, i),
    decreases k,
{
    if exists|g: int| 0 <= g < k && m[g].0 == key {
        let g = choose|g: int| 0 <= g < k && m[g].0 == key;
        lemma_first_key_exists(m, key, g);
    } else {
        assert(first_entry_with_key(m, key, k));
    }
}

/// Where the first entry of `key` stands in `m`, if it has one.
fn find_key(m: &Vec<(String, String)>, key: &str) -> (r: Option<usize>)
    ensures
        match r {
            Some(i) => first_entry_with_key(metadata_view(m@), key@, i as int),
            None => forall|k: int| 0 <= k < m@.len() ==> m@[k].0@ != key@,
        },
{
    let ghost v = metadata_view(m@);
    let mut i: usize = 0;
    while i < m.len()
        invariant
            i <= m@.len(),
            v == metadata_view(m@),
            forall|k: int| 0 <= k < i ==> m@[k].0@ != key@,
        decreases m.len() - i,
    {
        if str_equal(m[i].0.as_str(), key) {
            return Some(i);
        }
        i = i + 1;
    }
    None
}

/// The record of a new gap: no column, the priority of its type and no metadata.
pub open spec fn new_gap_record(
    gap_type: GapType,
    file_path: Seq<char>,
    line_number: int,
    context: Seq<char>,
    description: Seq<char>,
    confidence_percent: u8,
) -> GapRecord {
    GapRecord {
        gap_type,
        file_path,
        line_number,
        column_number: None,
        context,
        description,
        confidence_percent,
        priority: gap_priority(gap_type),
        metadata: Seq::empty(),
    }
}

impl DetectedGap {
    /// Create a new detected gap, prioritised by its type.
    pub fn new(
        gap_type: GapType,
        file_path: String,
        line_number: usize,
        context: String,
        description: String,
        confidence_percent: u8,
    ) -> (g: DetectedGap)
        ensures
            g@ == new_gap_record(gap_type, file_path@, line_number as int, context@, description@, confidence_percent),
    {
        let priority = gap_type.priority();
        let g = DetectedGap {
            gap_type,
            file_path,
            line_number,
            column_number: None,
            context,
            description,
            confidence_percent,
            priority,
            metadata: Vec::new(),
        };
        assert(metadata_view(g.metadata@) =~= Seq::<(Seq<char>, Seq<char>)>::empty());
        g
    }

    /// Add metadata to the gap, replacing any value the key had.
    pub fn with_metadata(self, key: &str, value: &str) -> (g: DetectedGap)
        ensures
            g@ == (GapRecord { metadata: metadata_set(self@.metadata, key@, value@), ..self@ }),
    {
        let mut g = self;
        let ghost m0 = metadata_view(g.metadata@);
        match find_key(&g.metadata, key) {
            Some(i) => {
                g.metadata.set(i, (key.to_owned(), value.to_owned()));
                proof {
                    let c = choose|c: int| first_entry_with_key(m0, key@, c);
                    assert(first_entry_with_key(m0, key@, i as int));
                    assert(c == i as int) by {
                        if c < i as int {
                            assert(m0[c].0 == key@);
                        } else if c > i as int {
                            assert(m0[i as int].0 == key@);
                        }
                    }
                    assert(metadata_view(g.metadata@) =~= m0.update(i as int, (key@, value@)));
                }
            },
            None => {
                g.metadata.push((key.to_owned(), value.to_owned()));
                proof {
                    assert forall|c: int| !first_entry_with_key(m0, key@, c) by {
                        if 0 <= c < m0.len() {
                            assert(m0[c].0 == self.metadata@[c].0@);
                        }
                    }
                    assert(metadata_view(g.metadata@) =~= m0.push((key@, value@)));
                }
            },
        }
        g
    }

    /// The value of a metadata key, if the gap has it.
    pub fn get_metadata(&self, key: &str) -> (r: Option<String>)
        ensures
            match r {
                Some(v) => metadata_get(self@.metadata, key@) == Some(v@),
                None => metadata_get(self@.metadata, key@) is None,
            },
    {
        let ghost m = metadata_view(self.metadata@);
        match find_key(&self.metadata, key) {
            Some(i) => {
                proof {
                    let c = choose|c: int| first_entry_with_key(m, key@, c);
                    assert(first_entry_with_key(m, key@, i as int));
                    assert(c == i as int) by {
                        if c < i as int {
                            assert(m[c].0 == key@);
                        } else if c > i as int {
                            assert(m[i as int].0 == key@);
                        }
                    }
                }
                Some(self.metadata[i].1.clone())
            },
            None => {
                proof {
                    assert forall|c: int| !first_entry_with_key(m, key@, c) by {
                        if 0 <= c < m.len() {
                            assert(m[c].0 == self.metadata@[c].0@);
                        }
                    }
                }
                None
            },
        }
    }

    /// Set the column number.
    pub fn with_column(self, column: usize) -> (g: DetectedGap)
        ensures
            g@ == (GapRecord { column_number: Some(column), ..self@ }),
    {
        DetectedGap { column_number: Some(column), ..self }
    }
}

/// Errors that can occur during gap analysis.
#[derive(Debug)]
pub enum GapAnalysisError {
    FileRead { path: String, error: String },
    AnalysisFailed { path: String, error: String },
    RegexCompilation(regex::Error),
    Configuration(String),
    PerformanceThreshold { duration_ms: u64, limit_ms: u64 },
    FileTooLarge { size: u64, limit: u64 },
    UnsupportedFileType { extension: String },
}

/// Configuration for gap analysis.
#[derive(Debug, Clone)]
pub struct GapAnalysisConfig {
    /// Maximum file size to analyze (in bytes)
    pub max_file_size_bytes: u64,
    /// Performance timeout for analysis (in milliseconds)
    pub analysis_timeout_ms: u64,
    /// Minimum confidence, in percent, for reporting gaps
    pub min_confidence_percent: u8,
    /// File extensions to analyze
    pub supported_extensions: Vec<String>,
    /// Whether to enable TODO comment detection
    pub enable_todo_detection: bool,
    /// Whether to enable missing documentation detection
    pub enable_docs_detection: bool,
    /// Whether to enable undocumented technology detection
    pub enable_tech_detection: bool,
    /// Whether to enable API documentation gap detection
    pub enable_api_detection: bool,
    /// Whether to enable configuration gap detection
    pub enable_config_detection: bool,
    /// Custom TODO patterns (regex)
    pub custom_todo_patterns: Vec<String>,
    /// Custom documentation patterns
    pub custom_doc_patterns: Vec<String>,
}

/// The extensions analysed by default.
pub open spec fn default_extensions() -> Seq<Seq<char>> {
    seq!["rs"@, "md"@, "yaml"@, "yml"@, "toml"@, "json"@, "py"@, "js"@, "ts"@, "go"@, "java"@, "cpp"@, "c"@, "h"@]
}

/// The extensions analysed in a Rust project.
pub open spec fn rust_project_extensions() -> Seq<Seq<char>> {
    seq!["rs"@, "md"@, "toml"@, "yaml"@, "yml"@, "json"@]
}

/// The settings every configuration starts from, apart from its extensions: 50 MiB files,
/// a 500 ms budget, a 60% confidence floor, every detector on and no custom patterns.
pub open spec fn has_default_settings(c: GapAnalysisConfig) -> bool {
    &&& c.max_file_size_bytes == 52428800
    &&& c.analysis_timeout_ms == 500
    &&& c.min_confidence_percent == 60
    &&& c.enable_todo_detection && c.enable_docs_detection && c.enable_tech_detection
    &&& c.enable_api_detection && c.enable_config_detection
    &&& c.custom_todo_patterns@.len() == 0
    &&& c.custom_doc_patterns@.len() == 0
}

fn owned_strings(items: &Vec<&str>) -> (v: Vec<String>)
    ensures
        string_views(v@) == items@.map_values(|s: &str| s@),
{
    let mut v: Vec<String> = Vec::new();
    let mut i: usize = 0;
    while i < items.len()
        invariant
            i <= items@.len(),
            string_views(v@) == items@.take(i as int).map_values(|s: &str| s@),
        decreases items.len() - i,
    {
        let ghost before = v@;
        let item = items[i].to_owned();
        v.push(item);
        proof {
            assert(items@.take(i + 1) =~= items@.take(i as int).push(items@[i as int]));
            assert(string_views(v@) =~= string_views(before).push(item@));
            assert(items@.take(i + 1).map_values(|s: &str| s@) =~= items@.take(i as int).map_values(|s: &str| s@).push(items@[i as int]@));
        }
        i = i + 1;
    }
    assert(items@.take(items@.len() as int) =~= items@);
    v
}

impl Default for GapAnalysisConfig {
    fn default() -> (c: Self)
        ensures
            has_default_settings(c),
            string_views(c.supported_extensions@) == default_extensions(),
    {
        let exts = vec!["rs", "md", "yaml", "yml", "toml", "json", "py", "js", "ts", "go", "java", "cpp", "c", "h"];
        let supported_extensions = owned_strings(&exts);
        assert(exts@.map_values(|s: &str| s@) =~= default_extensions());
        GapAnalysisConfig {
            max_file_size_bytes: 50 * 1024 * 1024,
            analysis_timeout_ms: 500,
            min_confidence_percent: 60,
            supported_extensions,
            enable_todo_detection: true,
            enable_docs_detection: true,
            enable_tech_detection: true,
            enable_api_detection: true,
            enable_config_detection: true,
            custom_todo_patterns: Vec::new(),
            custom_doc_patterns: Vec::new(),
        }
    }
}

/// The extension that `std::path::Path::extension` finds in a path, as text.
pub uninterp spec fn path_extension(path: Seq<char>) -> Option<Seq<char>>;

/// Calls `std::path::Path::extension` on the path. The result is named by
/// `path_extension`; how `Path` splits a file name is not restated here.
#[verifier::external_body]
fn extension_of(path: &str) -> (r: Option<String>)
    ensures
        match r {
            Some(e) => path_extension(path@) == Some(e@),
            None => path_extension(path@) == None::<Seq<char>>,
        },
{
    std::path::Path::new(path).extension().map(|e| e.to_string_lossy().into_owned())
}

/// Whether the path has the given extension.
fn has_extension(path: &str, ext: &str) -> (r: bool)
    ensures
        r == (path_extension(path@) == Some(ext@)),
{
    match extension_of(path) {
        Some(e) => str_equal(e.as_str(), ext),
        None => false,
    }
}

impl GapAnalysisConfig {
    /// Create configuration optimized for Rust projects.
    pub fn for_rust_project() -> (c: Self)
        ensures
            has_default_settings(c),
            string_views(c.supported_extensions@) == rust_project_extensions(),
    {
        let exts = vec!["rs", "md", "toml", "yaml", "yml", "json"];
        let supported_extensions = owned_strings(&exts);
        assert(exts@.map_values(|s: &str| s@) =~= rust_project_extensions());
        GapAnalysisConfig { supported_extensions, ..Default::default() }
    }

    /// Builder method to set the file size limit in MiB.
    pub fn with_max_file_size_mb(self, size_mb: u64) -> (c: Self)
        requires
            size_mb * 1048576 <= u64::MAX,
        ensures
            c == (GapAnalysisConfig { max_file_size_bytes: (size_mb * 1048576) as u64, ..self }),
    {
        GapAnalysisConfig { max_file_size_bytes: size_mb * 1024 * 1024, ..self }
    }

    /// Builder method to set the analysis timeout.
    pub fn with_timeout_ms(self, timeout_ms: u64) -> (c: Self)
        ensures
            c == (GapAnalysisConfig { analysis_timeout_ms: timeout_ms, ..self }),
    {
        GapAnalysisConfig { analysis_timeout_ms: timeout_ms, ..self }
    }

    /// Builder method to set the confidence threshold, in percent.
    pub fn with_confidence_threshold(self, threshold_percent: u8) -> (c: Self)
        ensures
            c == (GapAnalysisConfig { min_confidence_percent: threshold_percent, ..self }),
    {
        GapAnalysisConfig { min_confidence_percent: threshold_percent, ..self }
    }

    /// Whether files with this extension are analysed.
    pub fn supports_extension(&self, extension: &str) -> (r: bool)
        ensures
            r == string_views(self.supported_extensions@).contains(extension@),
    {
        let ghost exts = string_views(self.supported_extensions@);
        let mut i: usize = 0;
        while i < self.supported_extensions.len()
            invariant
                i <= self.supported_extensions@.len(),
                exts == string_views(self.supported_extensions@),
                forall|k: int| 0 <= k < i ==> exts[k] != extension@,
            decreases self.supported_extensions.len() - i,
        {
            if str_equal(self.supported_extensions[i].as_str(), extension) {
                assert(exts[i as int] == extension@);
                return true;
            }
            i = i + 1;
        }
        false
    }

    /// Check if a file should be analyzed based on its extension.
    pub fn should_analyze_file(&self, path: &str) -> (r: bool)
        ensures
            r == match path_extension(path@) {
                Some(e) => string_views(self.supported_extensions@).contains(e),
                None => false,
            },
    {
        match extension_of(path) {
            Some(e) => self.supports_extension(e.as_str()),
            None => false,
        }
    }
}

/// A `//` TODO comment; group 1 holds the note.
pub const TODO_PATTERN: &'static str = r"(?i)//\s*TODO:?\s*(.+)";
/// A `//` FIXME comment.
pub const FIXME_PATTERN: &'static str = r"(?i)//\s*FIXME:?\s*(.+)";
/// A `//` HACK comment.
pub const HACK_PATTERN: &'static str = r"(?i)//\s*HACK:?\s*(.+)";
/// A `//` BUG comment.
pub const BUG_PATTERN: &'static str = r"(?i)//\s*BUG:?\s*(.+)";
/// A `//` NOTE comment.
pub const NOTE_PATTERN: &'static str = r"(?i)//\s*NOTE:?\s*(.+)";
/// A `#` TODO comment.
pub const HASH_TODO_PATTERN: &'static str = r"(?i)#\s*TODO:?\s*(.+)";
/// A block TODO comment.
pub const BLOCK_TODO_PATTERN: &'static str = r"(?i)/\*\s*TODO:?\s*(.+?)\s*\*/";
/// A public function; group 3 holds its name.
pub const FUNCTION_PATTERN: &'static str = r"(?m)^(\s*)pub\s+(async\s+)?fn\s+([a-zA-Z_][a-zA-Z0-9_]*)\s*\(";
/// A public struct; group 2 holds its name.
pub const STRUCT_PATTERN: &'static str = r"(?m)^(\s*)pub\s+struct\s+([a-zA-Z_][a-zA-Z0-9_]*)";
/// The start of an impl block.
pub const IMPL_PATTERN: &'static str = r"(?m)^(\s*)impl\s+.*?\s*\{";
/// A `use` item; group 1 holds the path.
pub const USE_PATTERN: &'static str = r"(?m)^use\s+([a-zA-Z_][a-zA-Z0-9_]*(?:::[a-zA-Z_][a-zA-Z0-9_]*)*)";
/// A Markdown header.
pub const MARKDOWN_HEADER_PATTERN: &'static str = r"(?m)^(#{1,6})\s+(.+)";
/// A configuration key assignment; group 1 holds the key.
pub const CONFIG_KEY_PATTERN: &'static str = r"(?m)^([a-zA-Z_][a-zA-Z0-9_]*)\s*=";

/// The built-in comment patterns that mark a TODO, in the order they are tried.
pub open spec fn builtin_todo_patterns() -> Seq<Seq<char>> {
    seq![TODO_PATTERN@, FIXME_PATTERN@, HACK_PATTERN@, BUG_PATTERN@, NOTE_PATTERN@, HASH_TODO_PATTERN@, BLOCK_TODO_PATTERN@]
}

/// Every configuration's TODO patterns start with the built-in comment markers, in
/// this order: `// TODO`, `// FIXME`, `// HACK`, `// BUG`, `// NOTE`, `# TODO` and a
/// `/* TODO` block, each case-insensitive with an optional colon; its custom patterns
/// follow.
pub proof fn lemma_builtin_todo_markers(config: GapAnalysisConfig)
    ensures
        todo_sources(config).len() == 7 + config.custom_todo_patterns@.len(),
        todo_sources(config)[0] == r"(?i)//\s*TODO:?\s*(.+)"@,
        todo_sources(config)[1] == r"(?i)//\s*FIXME:?\s*(.+)"@,
        todo_sources(config)[2] == r"(?i)//\s*HACK:?\s*(.+)"@,
        todo_sources(config)[3] == r"(?i)//\s*BUG:?\s*(.+)"@,
        todo_sources(config)[4] == r"(?i)//\s*NOTE:?\s*(.+)"@,
        todo_sources(config)[5] == r"(?i)#\s*TODO:?\s*(.+)"@,
        todo_sources(config)[6] == r"(?i)/\*\s*TODO:?\s*(.+?)\s*\*/"@,
        forall|i: int| 0 <= i < config.custom_todo_patterns@.len() ==> todo_sources(config)[7 + i]
            == #[trigger] config.custom_todo_patterns@[i]@,
{
}

/// The TODO patterns of a configuration: the built-in ones, then the custom ones.
pub open spec fn todo_sources(config: GapAnalysisConfig) -> Seq<Seq<char>> {
    builtin_todo_patterns() + string_views(config.custom_todo_patterns@)
}

/// The fixed patterns for Rust items, Markdown headers and configuration keys.
pub open spec fn item_patterns() -> Seq<Seq<char>> {
    seq![FUNCTION_PATTERN@, STRUCT_PATTERN@, IMPL_PATTERN@, USE_PATTERN@, MARKDOWN_HEADER_PATTERN@, CONFIG_KEY_PATTERN@]
}

/// Every pattern that an analyzer compiles from a configuration compiles: the TODO
/// patterns as one set and one by one, and the fixed item patterns.
pub open spec fn patterns_compile(config: GapAnalysisConfig) -> bool {
    &&& regex_set_compiles(todo_sources(config))
    &&& forall|i: int| 0 <= i < todo_sources(config).len() ==> regex_compiles(#[trigger] todo_sources(config)[i])
    &&& forall|i: int| 0 <= i < item_patterns().len() ==> regex_compiles(#[trigger] item_patterns()[i])
}

/// The TODO pattern texts of a configuration.
fn todo_pattern_sources(config: &GapAnalysisConfig) -> (v: Vec<String>)
    ensures
        string_views(v@) == todo_sources(*config),
{
    let builtin = vec![TODO_PATTERN, FIXME_PATTERN, HACK_PATTERN, BUG_PATTERN, NOTE_PATTERN, HASH_TODO_PATTERN, BLOCK_TODO_PATTERN];
    let mut v = owned_strings(&builtin);
    assert(builtin@.map_values(|s: &str| s@) =~= builtin_todo_patterns());
    let mut i: usize = 0;
    while i < config.custom_todo_patterns.len()
        invariant
            i <= config.custom_todo_patterns@.len(),
            string_views(v@) == builtin_todo_patterns() + string_views(config.custom_todo_patterns@).take(i as int),
        decreases config.custom_todo_patterns.len() - i,
    {
        let ghost before = v@;
        let p = config.custom_todo_patterns[i].clone();
        v.push(p);
        proof {
            assert(string_views(v@) =~= string_views(before).push(p@));
            assert(string_views(config.custom_todo_patterns@).take(i + 1)
                =~= string_views(config.custom_todo_patterns@).take(i as int).push(p@));
        }
        i = i + 1;
    }
    assert(string_views(config.custom_todo_patterns@).take(i as int) =~= string_views(config.custom_todo_patterns@));
    v
}

/// Compiled regular expressions for gap detection.
#[derive(Debug)]
struct CompiledPatterns {
    todo_set: CompiledPatternSet,
    todo_extractors: Vec<CompiledPattern>,
    rust_function: CompiledPattern,
    rust_struct: CompiledPattern,
    rust_impl: CompiledPattern,
    rust_use: CompiledPattern,
    markdown_header: CompiledPattern,
    config_key: CompiledPattern,
}

impl CompiledPatterns {
    /// Each regex was compiled from the pattern it stands for; `todo` lists the TODO patterns.
    spec fn compiled_from(&self, todo: Seq<Seq<char>>) -> bool {
        &&& self.todo_set.sources() == todo
        &&& self.todo_extractors@.len() == todo.len()
        &&& forall|i: int| 0 <= i < todo.len() ==> (#[trigger] self.todo_extractors@[i]).source() == todo[i]
        &&& self.rust_function.source() == FUNCTION_PATTERN@
        &&& self.rust_struct.source() == STRUCT_PATTERN@
        &&& self.rust_impl.source() == IMPL_PATTERN@
        &&& self.rust_use.source() == USE_PATTERN@
        &&& self.markdown_header.source() == MARKDOWN_HEADER_PATTERN@
        &&& self.config_key.source() == CONFIG_KEY_PATTERN@
    }

    /// Compile the patterns of a configuration: the TODO set, each TODO pattern, then
    /// the fixed patterns, stopping at the first that fails.
    fn new(config: &GapAnalysisConfig) -> (r: Result<CompiledPatterns, GapAnalysisError>)
        ensures
            r is Ok <==> patterns_compile(*config),
            match r {
                Ok(p) => p.compiled_from(todo_sources(*config)),
                Err(e) => e is RegexCompilation,
            },
    {
        let sources = todo_pattern_sources(config);
        let ghost todo = todo_sources(*config);
        let todo_set = match compile_pattern_set(&sources) {
            Ok(s) => s,
            Err(e) => return Err(GapAnalysisError::RegexCompilation(e)),
        };
        let mut todo_extractors: Vec<CompiledPattern> = Vec::new();
        let mut i: usize = 0;
        while i < sources.len()
            invariant
                i <= sources@.len(),
                todo == string_views(sources@),
                todo == todo_sources(*config),
                todo_extractors@.len() == i,
                forall|k: int| 0 <= k < i ==> (#[trigger] todo_extractors@[k]).source() == todo[k],
                forall|k: int| 0 <= k < i ==> regex_compiles(#[trigger] todo[k]),
            decreases sources.len() - i,
        {
            assert(todo[i as int] == sources@[i as int]@);
            match compile_pattern(sources[i].as_str()) {
                Ok(p) => todo_extractors.push(p),
                Err(e) => {
                    assert(!regex_compiles(todo_sources(*config)[i as int]));
                    return Err(GapAnalysisError::RegexCompilation(e));
                },
            }
            i = i + 1;
        }
        let rust_function = match compile_pattern(FUNCTION_PATTERN) {
            Ok(p) => p,
            Err(e) => {
                assert(item_patterns()[0] == FUNCTION_PATTERN@);
                return Err(GapAnalysisError::RegexCompilation(e));
            },
        };
        let rust_struct = match compile_pattern(STRUCT_PATTERN) {
            Ok(p) => p,
            Err(e) => {
                assert(item_patterns()[1] == STRUCT_PATTERN@);
                return Err(GapAnalysisError::RegexCompilation(e));
            },
        };
        let rust_impl = match compile_pattern(IMPL_PATTERN) {
            Ok(p) => p,
            Err(e) => {
                assert(item_patterns()[2] == IMPL_PATTERN@);
                return Err(GapAnalysisError::RegexCompilation(e));
            },
        };
        let rust_use = match compile_pattern(USE_PATTERN) {
            Ok(p) => p,
            Err(e) => {
                assert(item_patterns()[3] == USE_PATTERN@);
                return Err(GapAnalysisError::RegexCompilation(e));
            },
        };
        let markdown_header = match compile_pattern(MARKDOWN_HEADER_PATTERN) {
            Ok(p) => p,
            Err(e) => {
                assert(item_patterns()[4] == MARKDOWN_HEADER_PATTERN@);
                return Err(GapAnalysisError::RegexCompilation(e));
            },
        };
        let config_key = match compile_pattern(CONFIG_KEY_PATTERN) {
            Ok(p) => p,
            Err(e) => {
                assert(item_patterns()[5] == CONFIG_KEY_PATTERN@);
                return Err(GapAnalysisError::RegexCompilation(e));
            },
        };
        proof {
            assert forall|k: int| 0 <= k < item_patterns().len() implies regex_compiles(#[trigger] item_patterns()[k]) by {
                if k == 0 {} else if k == 1 {} else if k == 2 {} else if k == 3 {} else if k == 4 {} else {}
            }
        }
        Ok(CompiledPatterns {
            todo_set,
            todo_extractors,
            rust_function,
            rust_struct,
            rust_impl,
            rust_use,
            markdown_header,
            config_key,
        })
    }
}

/// Main gap analyzer.
pub struct GapAnalyzer {
    config: GapAnalysisConfig,
    patterns: CompiledPatterns,
}

impl GapAnalyzer {
    /// The configuration the analyzer was built with.
    pub closed spec fn settings(&self) -> GapAnalysisConfig {
        self.config
    }

    /// The configuration the analyzer was built with.
    pub fn config(&self) -> (c: &GapAnalysisConfig)
        ensures
            *c == self.settings(),
    {
        &self.config
    }

    /// The compiled patterns are those of the configuration.
    pub closed spec fn wf(&self) -> bool {
        self.patterns.compiled_from(todo_sources(self.config))
    }

    /// Create a new gap analyzer with the given configuration; fails when one of its
    /// patterns does not compile.
    pub fn new(config: GapAnalysisConfig) -> (r: Result<GapAnalyzer, GapAnalysisError>)
        ensures
            r is Ok <==> patterns_compile(config),
            match r {
                Ok(a) => a.wf() && a.settings() == config,
                Err(e) => e is RegexCompilation,
            },
    {
        match CompiledPatterns::new(&config) {
            Ok(patterns) => Ok(GapAnalyzer { config, patterns }),
            Err(e) => Err(e),
        }
    }

    /// Create a gap analyzer with the default configuration for Rust projects.
    pub fn for_rust_project() -> (r: Result<GapAnalyzer, GapAnalysisError>)
        ensures
            match r {
                Ok(a) => a.wf() && has_default_settings(a.settings())
                    && string_views(a.settings().supported_extensions@) == rust_project_extensions(),
                Err(e) => e is RegexCompilation,
            },
    {
        GapAnalyzer::new(GapAnalysisConfig::for_rust_project())
    }
}

/// The plain values of a list of gaps.
pub open spec fn gap_views(gaps: Seq<DetectedGap>) -> Seq<GapRecord> {
    gaps.map_values(|g: DetectedGap| g@)
}

/// The plain values of a gap, if there is one.
pub open spec fn gap_option_view(g: Option<DetectedGap>) -> Option<GapRecord> {
    match g {
        Some(x) => Some(x@),
        None => None,
    }
}

/// The note that the first of `patterns`, in order, captures in group 1 of the line.
pub open spec fn first_note(patterns: Seq<Seq<char>>, line: Seq<char>) -> Option<Seq<char>>
    decreases patterns.len(),
{
    if patterns.len() == 0 {
        None
    } else {
        match regex_group(patterns[0], line, 1) {
            Some(note) => Some(note),
            None => first_note(patterns.drop_first(), line),
        }
    }
}

/// The TODO gap of the line at `index`, if the TODO set matches it and some pattern
/// yields a note: the trimmed line as context and the trimmed note as description, at 90%.
pub open spec fn todo_gap(todo: Seq<Seq<char>>, path: Seq<char>, line: Seq<char>, index: int) -> Option<GapRecord> {
    if regex_set_is_match(todo, line) {
        match first_note(todo, line) {
            Some(note) => Some(new_gap_record(GapType::TodoComment, path, index + 1, trimmed(line), trimmed(note), 90)),
            None => None,
        }
    } else {
        None
    }
}

/// The TODO gaps of the lines of a file, in line order.
pub open spec fn todo_gaps(todo: Seq<Seq<char>>, path: Seq<char>, lines: Seq<Seq<char>>) -> Seq<GapRecord>
    decreases lines.len(),
{
    if lines.len() == 0 {
        Seq::empty()
    } else {
        let earlier = todo_gaps(todo, path, lines.drop_last());
        match todo_gap(todo, path, lines.last(), lines.len() - 1) {
            Some(g) => earlier.push(g),
            None => earlier,
        }
    }
}

/// At most one TODO gap is reported per line: the gaps' line numbers rise strictly and
/// name lines of the file.
pub proof fn lemma_one_todo_per_line(todo: Seq<Seq<char>>, path: Seq<char>, lines: Seq<Seq<char>>)
    ensures
        forall|i: int| 0 <= i < todo_gaps(todo, path, lines).len()
            ==> 1 <= #[trigger] todo_gaps(todo, path, lines)[i].line_number <= lines.len(),
        forall|i: int, j: int| 0 <= i < j < todo_gaps(todo, path, lines).len()
            ==> #[trigger] todo_gaps(todo, path, lines)[i].line_number < #[trigger] todo_gaps(todo, path, lines)[j].line_number,
        todo_gaps(todo, path, lines).len() <= lines.len(),
    decreases lines.len(),
{
    if lines.len() > 0 {
        let earlier = todo_gaps(todo, path, lines.drop_last());
        lemma_one_todo_per_line(todo, path, lines.drop_last());
        match todo_gap(todo, path, lines.last(), lines.len() - 1) {
            Some(g) => {
                let all = earlier.push(g);
                assert(g.line_number == lines.len());
                assert forall|i: int| 0 <= i < all.len() implies 1 <= #[trigger] all[i].line_number <= lines.len() by {
                    if i < earlier.len() {
                        assert(all[i] == earlier[i]);
                    }
                }
                assert forall|i: int, j: int| 0 <= i < j < all.len()
                    implies #[trigger] all[i].line_number < #[trigger] all[j].line_number by {
                    assert(all[i] == earlier[i]);
                    if j < earlier.len() {
                        assert(all[j] == earlier[j]);
                    }
                }
            },
            None => {},
        }
    }
}

impl GapAnalyzer {
    /// The TODO gap of one line, if it has one.
    fn todo_gap_in_line(&self, file_path: &str, line: &str, index: usize) -> (r: Option<DetectedGap>)
        requires
            self.wf(),
            index < usize::MAX,
        ensures
            gap_option_view(r) == todo_gap(todo_sources(self.settings()), file_path@, line@, index as int),
    {
        let ghost todo = todo_sources(self.config);
        if !pattern_set_matches(&self.patterns.todo_set, line) {
            return None;
        }
        let mut j: usize = 0;
        assert(todo.skip(0) =~= todo);
        while j < self.patterns.todo_extractors.len()
            invariant
                self.wf(),
                index < usize::MAX,
                todo == todo_sources(self.config),
                regex_set_is_match(todo, line@),
                j <= todo.len(),
                first_note(todo, line@) == first_note(todo.skip(j as int), line@),
            decreases self.patterns.todo_extractors.len() - j,
        {
            let ghost rest = todo.skip(j as int);
            assert(rest[0] == todo[j as int]);
            assert(self.patterns.todo_extractors@[j as int].source() == todo[j as int]);
            match pattern_group(&self.patterns.todo_extractors[j], line, 1) {
                Some(note) => {
                    assert(first_note(rest, line@) == Some(note@));
                    let context = trim(line);
                    let description = trim(note.as_str());
                    return Some(DetectedGap::new(GapType::TodoComment, file_path.to_owned(), index + 1, context, description, 90));
                },
                None => {
                    assert(rest.drop_first() =~= todo.skip(j + 1));
                },
            }
            j = j + 1;
        }
        assert(todo.skip(j as int).len() == 0);
        None
    }

    /// Detect TODO/FIXME/HACK comments, at most one per line.
    pub fn detect_todo_comments(&self, content: &str, file_path: &str) -> (r: Vec<DetectedGap>)
        requires
            self.wf(),
        ensures
            gap_views(r@) == todo_gaps(todo_sources(self.settings()), file_path@, text_lines(content@)),
    {
        let ghost todo = todo_sources(self.config);
        let lines = lines_of(content);
        let ghost views = string_views(lines@);
        let mut gaps: Vec<DetectedGap> = Vec::new();
        let mut i: usize = 0;
        while i < lines.len()
            invariant
                self.wf(),
                todo == todo_sources(self.config),
                i <= lines@.len(),
                views == string_views(lines@),
                gap_views(gaps@) == todo_gaps(todo, file_path@, views.take(i as int)),
            decreases lines.len() - i,
        {
            let g = self.todo_gap_in_line(file_path, lines[i].as_str(), i);
            proof {
                assert(views.take(i + 1).drop_last() =~= views.take(i as int));
                assert(views.take(i + 1).last() == lines@[i as int]@);
            }
            match g {
                Some(x) => {
                    let ghost before = gaps@;
                    gaps.push(x);
                    assert(gap_views(gaps@) =~= gap_views(before).push(x@));
                },
                None => {},
            }
            i = i + 1;
        }
        assert(views.take(lines@.len() as int) =~= views);
        gaps
    }
}

/// How a match of an item pattern turns into a gap.
#[derive(Debug, Clone, Copy, PartialEq, Eq, Structural)]
pub enum CaptureRule {
    /// A public function (group 3) without documentation above it
    FunctionDocumentation,
    /// A public struct (group 2) without documentation above it
    StructDocumentation,
    /// A `use` of a path (group 1) whose first segment names an external crate
    ExternalCrate,
    /// A documented public function (group 3) whose documentation shows no example
    FunctionExamples,
    /// A configuration key (group 1)
    ConfigKey,
}

/// Two metadata entries, set in order on a gap without metadata.
pub open spec fn two_entries(k1: Seq<char>, v1: Seq<char>, k2: Seq<char>, v2: Seq<char>) -> Seq<(Seq<char>, Seq<char>)> {
    metadata_set(metadata_set(Seq::empty(), k1, v1), k2, v2)
}

/// Some line among the three above `line` is documentation.
pub open spec fn doc_above(lines: Seq<Seq<char>>, line: int) -> bool {
    some_line_above(lines, line, 3, |t: Seq<char>| is_doc_line(t))
}

/// Some line among the ten above `line` mentions an example.
pub open spec fn examples_above(lines: Seq<Seq<char>>, line: int) -> bool {
    some_line_above(lines, line, 10, |t: Seq<char>| is_example_line(t))
}

/// The gap for a match that starts on line `line` (0-based): its trimmed text as
/// context, with the given description, confidence and metadata.
pub open spec fn item_gap(
    gap_type: GapType,
    path: Seq<char>,
    line: int,
    c: (Seq<char>, Seq<Option<Seq<char>>>),
    description: Seq<char>,
    confidence_percent: u8,
    metadata: Seq<(Seq<char>, Seq<char>)>,
) -> GapRecord {
    GapRecord { metadata, ..new_gap_record(gap_type, path, line + 1, trimmed(whole_match(c)), description, confidence_percent) }
}

/// The gap that a rule finds in one match, given the lines of the file. A match starts
/// on the line after as many line feeds as precede it.
pub open spec fn capture_gap(
    rule: CaptureRule,
    path: Seq<char>,
    lines: Seq<Seq<char>>,
    c: (Seq<char>, Seq<Option<Seq<char>>>),
) -> Option<GapRecord> {
    let line = newline_count(c.0) as int;
    match rule {
        CaptureRule::FunctionDocumentation => match group_of(c, 3) {
            Some(name) => if group_of(c, 0) is Some && !doc_above(lines, line) {
                Some(item_gap(GapType::MissingDocumentation, path, line, c,
                    "Public function '"@ + name + "' lacks documentation"@, 80,
                    two_entries("function_name"@, name, "item_type"@, "function"@)))
            } else {
                None
            },
            None => None,
        },
        CaptureRule::StructDocumentation => match group_of(c, 2) {
            Some(name) => if group_of(c, 0) is Some && !doc_above(lines, line) {
                Some(item_gap(GapType::MissingDocumentation, path, line, c,
                    "Public struct '"@ + name + "' lacks documentation"@, 80,
                    two_entries("struct_name"@, name, "item_type"@, "struct"@)))
            } else {
                None
            },
            None => None,
        },
        CaptureRule::ExternalCrate => match group_of(c, 1) {
            Some(path_text) => {
                let root = first_segment(path_text, "::"@);
                if is_external_crate_name(root) {
                    Some(item_gap(GapType::UndocumentedTechnology, path, line, c,
                        "External crate '"@ + root + "' may need documentation"@, 70,
                        two_entries("crate_name"@, root, "full_path"@, path_text)))
                } else {
                    None
                }
            },
            None => None,
        },
        CaptureRule::FunctionExamples => match group_of(c, 3) {
            Some(name) => if doc_above(lines, line) && !examples_above(lines, line) {
                Some(item_gap(GapType::ApiDocumentationGap, path, line, c,
                    "Public function '"@ + name + "' documentation lacks examples"@, 60,
                    two_entries("function_name"@, name, "missing_element"@, "examples"@)))
            } else {
                None
            },
            None => None,
        },
        CaptureRule::ConfigKey => match group_of(c, 1) {
            Some(key) => Some(item_gap(GapType::ConfigurationGap, path, line, c,
                "Configuration key '"@ + key + "' may need documentation"@, 50,
                metadata_set(Seq::empty(), "config_key"@, key))),
            None => None,
        },
    }
}

/// The gaps that a rule finds in a list of matches, in match order.
pub open spec fn capture_gaps(
    rule: CaptureRule,
    path: Seq<char>,
    lines: Seq<Seq<char>>,
    cs: Seq<(Seq<char>, Seq<Option<Seq<char>>>)>,
) -> Seq<GapRecord>
    decreases cs.len(),
{
    if cs.len() == 0 {
        Seq::empty()
    } else {
        let earlier = capture_gaps(rule, path, lines, cs.drop_last());
        match capture_gap(rule, path, lines, cs.last()) {
            Some(g) => earlier.push(g),
            None => earlier,
        }
    }
}

/// The text `prefix`, `name`, `suffix` joined.
fn quoted(prefix: &str, name: &str, suffix: &str) -> (s: String)
    ensures
        s@ == prefix@ + name@ + suffix@,
{
    let mut s = String::new();
    s.append(prefix);
    s.append(name);
    s.append(suffix);
    s
}

/// The gap that a rule finds in one match.
fn gap_for_capture(rule: CaptureRule, file_path: &str, lines: &Vec<String>, c: &PatternCapture) -> (r: Option<DetectedGap>)
    requires
        c.before@.len() < usize::MAX,
    ensures
        gap_option_view(r) == capture_gap(rule, file_path@, string_views(lines@), capture_view(*c)),
{
    let ghost cv = capture_view(*c);
    let line = count_newlines(c.before.as_str());
    let full = capture_group(c, 0);
    let whole = match &full {
        Some(m) => m.clone(),
        None => String::new(),
    };
    assert(whole@ == whole_match(cv));
    let context = trim(whole.as_str());
    let path = file_path.to_owned();
    match rule {
        CaptureRule::FunctionDocumentation => match capture_group(c, 3) {
            Some(name) => {
                if full.is_some() && !has_documentation_above(lines, line) {
                    let description = quoted("Public function '", name.as_str(), "' lacks documentation");
                    Some(DetectedGap::new(GapType::MissingDocumentation, path, line + 1, context, description, 80)
                        .with_metadata("function_name", name.as_str()).with_metadata("item_type", "function"))
                } else {
                    None
                }
            },
            None => None,
        },
        CaptureRule::StructDocumentation => match capture_group(c, 2) {
            Some(name) => {
                if full.is_some() && !has_documentation_above(lines, line) {
                    let description = quoted("Public struct '", name.as_str(), "' lacks documentation");
                    Some(DetectedGap::new(GapType::MissingDocumentation, path, line + 1, context, description, 80)
                        .with_metadata("struct_name", name.as_str()).with_metadata("item_type", "struct"))
                } else {
                    None
                }
            },
            None => None,
        },
        CaptureRule::ExternalCrate => match capture_group(c, 1) {
            Some(path_text) => {
                proof {
                    reveal_strlit("::");
                }
                let root = split_first(path_text.as_str(), "::");
                if is_external_crate(root.as_str()) {
                    let description = quoted("External crate '", root.as_str(), "' may need documentation");
                    Some(DetectedGap::new(GapType::UndocumentedTechnology, path, line + 1, context, description, 70)
                        .with_metadata("crate_name", root.as_str()).with_metadata("full_path", path_text.as_str()))
                } else {
                    None
                }
            },
            None => None,
        },
        CaptureRule::FunctionExamples => match capture_group(c, 3) {
            Some(name) => {
                if has_documentation_above(lines, line) && !has_examples_in_documentation(lines, line) {
                    let description = quoted("Public function '", name.as_str(), "' documentation lacks examples");
                    Some(DetectedGap::new(GapType::ApiDocumentationGap, path, line + 1, context, description, 60)
                        .with_metadata("function_name", name.as_str()).with_metadata("missing_element", "examples"))
                } else {
                    None
                }
            },
            None => None,
        },
        CaptureRule::ConfigKey => match capture_group(c, 1) {
            Some(key) => {
                let description = quoted("Configuration key '", key.as_str(), "' may need documentation");
                Some(DetectedGap::new(GapType::ConfigurationGap, path, line + 1, context, description, 50)
                    .with_metadata("config_key", key.as_str()))
            },
            None => None,
        },
    }
}

/// The gaps that a rule finds in a list of matches of its pattern in a file's content,
/// given the file's lines.
pub fn gaps_for_captures(rule: CaptureRule, file_path: &str, lines: &Vec<String>, captures: &Vec<PatternCapture>) -> (r: Vec<DetectedGap>)
    requires
        forall|i: int| #![trigger captures@[i]] 0 <= i < captures@.len() ==> captures@[i].before@.len() < usize::MAX,
    ensures
        gap_views(r@) == capture_gaps(rule, file_path@, string_views(lines@), capture_views(captures@)),
{
    let ghost cs = capture_views(captures@);
    let mut gaps: Vec<DetectedGap> = Vec::new();
    let mut i: usize = 0;
    while i < captures.len()
        invariant
            i <= captures@.len(),
            cs == capture_views(captures@),
            forall|k: int| #![trigger captures@[k]] 0 <= k < captures@.len() ==> captures@[k].before@.len() < usize::MAX,
            gap_views(gaps@) == capture_gaps(rule, file_path@, string_views(lines@), cs.take(i as int)),
        decreases captures.len() - i,
    {
        let g = gap_for_capture(rule, file_path, lines, &captures[i]);
        proof {
            assert(cs.take(i + 1).drop_last() =~= cs.take(i as int));
            assert(cs.take(i + 1).last() == capture_view(captures@[i as int]));
        }
        match g {
            Some(x) => {
                let ghost before = gaps@;
                gaps.push(x);
                assert(gap_views(gaps@) =~= gap_views(before).push(x@));
            },
            None => {},
        }
        i = i + 1;
    }
    assert(cs.take(captures@.len() as int) =~= cs);
    gaps
}

/// A Rust source file, by its extension.
pub open spec fn rust_file(path: Seq<char>) -> bool {
    path_extension(path) == Some("rs"@)
}

/// Public functions and structs of a Rust file with no documentation above them:
/// the functions first, then the structs, each in match order.
pub open spec fn missing_documentation_gaps(path: Seq<char>, content: Seq<char>) -> Seq<GapRecord> {
    if rust_file(path) {
        capture_gaps(CaptureRule::FunctionDocumentation, path, text_lines(content), regex_captures(FUNCTION_PATTERN@, content))
            + capture_gaps(CaptureRule::StructDocumentation, path, text_lines(content), regex_captures(STRUCT_PATTERN@, content))
    } else {
        Seq::empty()
    }
}

/// The external crates that a Rust file uses.
pub open spec fn technology_gaps(path: Seq<char>, content: Seq<char>) -> Seq<GapRecord> {
    if rust_file(path) {
        capture_gaps(CaptureRule::ExternalCrate, path, text_lines(content), regex_captures(USE_PATTERN@, content))
    } else {
        Seq::empty()
    }
}

/// The documented public functions of a Rust file whose documentation shows no example.
pub open spec fn api_documentation_gaps(path: Seq<char>, content: Seq<char>) -> Seq<GapRecord> {
    if rust_file(path) {
        capture_gaps(CaptureRule::FunctionExamples, path, text_lines(content), regex_captures(FUNCTION_PATTERN@, content))
    } else {
        Seq::empty()
    }
}

/// The keys assigned in a TOML file; other files have none.
pub open spec fn configuration_gaps(path: Seq<char>, content: Seq<char>) -> Seq<GapRecord> {
    if path_extension(path) == Some("toml"@) {
        capture_gaps(CaptureRule::ConfigKey, path, text_lines(content), regex_captures(CONFIG_KEY_PATTERN@, content))
    } else {
        Seq::empty()
    }
}

/// Everything the enabled detectors of a configuration find, detector after detector.
pub open spec fn detected_gaps(config: GapAnalysisConfig, path: Seq<char>, content: Seq<char>) -> Seq<GapRecord> {
    (if config.enable_todo_detection { todo_gaps(todo_sources(config), path, text_lines(content)) } else { Seq::empty() })
        + (if config.enable_docs_detection { missing_documentation_gaps(path, content) } else { Seq::empty() })
        + (if config.enable_tech_detection { technology_gaps(path, content) } else { Seq::empty() })
        + (if config.enable_api_detection { api_documentation_gaps(path, content) } else { Seq::empty() })
        + (if config.enable_config_detection { configuration_gaps(path, content) } else { Seq::empty() })
}

/// The gaps whose confidence reaches the threshold, in their order.
pub open spec fn confident_gaps(gaps: Seq<GapRecord>, threshold_percent: u8) -> Seq<GapRecord>
    decreases gaps.len(),
{
    if gaps.len() == 0 {
        Seq::empty()
    } else {
        let earlier = confident_gaps(gaps.drop_last(), threshold_percent);
        if gaps.last().confidence_percent >= threshold_percent { earlier.push(gaps.last()) } else { earlier }
    }
}

/// Filtering by confidence keeps exactly the gaps whose confidence reaches the threshold.
pub proof fn lemma_confident_gaps_meet_threshold(gaps: Seq<GapRecord>, threshold_percent: u8, g: GapRecord)
    ensures
        confident_gaps(gaps, threshold_percent).contains(g) <==> gaps.contains(g) && g.confidence_percent >= threshold_percent,
        confident_gaps(gaps, threshold_percent).len() <= gaps.len(),
    decreases gaps.len(),
{
    if gaps.len() > 0 {
        let earlier = gaps.drop_last();
        lemma_confident_gaps_meet_threshold(earlier, threshold_percent, g);
        let kept = confident_gaps(earlier, threshold_percent);
        assert(gaps =~= earlier.push(gaps.last()));
        if gaps.contains(g) && g != gaps.last() {
            let i = choose|i: int| 0 <= i < gaps.len() && gaps[i] == g;
            assert(earlier[i] == g);
        }
        if earlier.contains(g) {
            let i = choose|i: int| 0 <= i < earlier.len() && earlier[i] == g;
            assert(gaps[i] == g);
        }
        if gaps.last().confidence_percent >= threshold_percent {
            assert(kept.push(gaps.last())[kept.len() as int] == gaps.last());
            if kept.contains(g) {
                let i = choose|i: int| 0 <= i < kept.len() && kept[i] == g;
                assert(kept.push(gaps.last())[i] == g);
            }
            if kept.push(gaps.last()).contains(g) && g != gaps.last() {
                let i = choose|i: int| 0 <= i < kept.len() + 1 && kept.push(gaps.last())[i] == g;
                assert(kept[i] == g);
            }
        }
        assert(gaps[gaps.len() - 1] == gaps.last());
    }
}

/// What analysing a file's content reports: the detected gaps above the threshold.
pub open spec fn reported_gaps(config: GapAnalysisConfig, path: Seq<char>, content: Seq<char>) -> Seq<GapRecord> {
    confident_gaps(detected_gaps(config, path, content), config.min_confidence_percent)
}

/// Append `more` to `gaps`.
fn extend_gaps(gaps: &mut Vec<DetectedGap>, more: Vec<DetectedGap>)
    ensures
        gap_views(final(gaps)@) == gap_views(old(gaps)@) + gap_views(more@),
{
    let mut more = more;
    let ghost a = gaps@;
    let ghost b = more@;
    gaps.append(&mut more);
    assert(gap_views(gaps@) =~= gap_views(a) + gap_views(b));
}

/// Keep the gaps whose confidence reaches the threshold.
fn retain_confident(gaps: Vec<DetectedGap>, threshold_percent: u8) -> (r: Vec<DetectedGap>)
    ensures
        gap_views(r@) == confident_gaps(gap_views(gaps@), threshold_percent),
{
    let ghost all = gap_views(gaps@);
    let mut kept: Vec<DetectedGap> = Vec::new();
    let mut rest = gaps;
    let ghost initial = rest@;
    let n = rest.len();
    let mut i: usize = 0;
    while i < n
        invariant
            n == initial.len(),
            all == gap_views(initial),
            i <= n,
            rest@ == initial.skip(i as int),
            gap_views(kept@) == confident_gaps(all.take(i as int), threshold_percent),
        decreases n - i,
    {
        let g = rest.remove(0);
        proof {
            assert(g == initial[i as int]);
            assert(rest@ =~= initial.skip(i + 1));
            assert(all.take(i + 1).drop_last() =~= all.take(i as int));
            assert(all.take(i + 1).last() == g@);
        }
        if g.confidence_percent >= threshold_percent {
            let ghost before = kept@;
            kept.push(g);
            assert(gap_views(kept@) =~= gap_views(before).push(g@));
        }
        i = i + 1;
    }
    assert(all.take(n as int) =~= all);
    kept
}

impl GapAnalyzer {
    /// Detect missing documentation for public functions and structs of a Rust file.
    pub fn detect_missing_documentation(&self, content: &str, file_path: &str) -> (r: Result<Vec<DetectedGap>, GapAnalysisError>)
        requires
            self.wf(),
            content@.len() < usize::MAX,
        ensures
            r matches Ok(gaps) && gap_views(gaps@) == missing_documentation_gaps(file_path@, content@),
    {
        if !has_extension(file_path, "rs") {
            return Ok(Vec::new());
        }
        let lines = lines_of(content);
        let functions = pattern_captures(&self.patterns.rust_function, content);
        let mut gaps = gaps_for_captures(CaptureRule::FunctionDocumentation, file_path, &lines, &functions);
        let structs = pattern_captures(&self.patterns.rust_struct, content);
        let more = gaps_for_captures(CaptureRule::StructDocumentation, file_path, &lines, &structs);
        extend_gaps(&mut gaps, more);
        Ok(gaps)
    }

    /// Detect the external crates that a Rust file uses.
    pub fn detect_undocumented_technologies(&self, content: &str, file_path: &str) -> (r: Result<Vec<DetectedGap>, GapAnalysisError>)
        requires
            self.wf(),
            content@.len() < usize::MAX,
        ensures
            r matches Ok(gaps) && gap_views(gaps@) == technology_gaps(file_path@, content@),
    {
        if !has_extension(file_path, "rs") {
            return Ok(Vec::new());
        }
        let lines = lines_of(content);
        let uses = pattern_captures(&self.patterns.rust_use, content);
        Ok(gaps_for_captures(CaptureRule::ExternalCrate, file_path, &lines, &uses))
    }

    /// Detect documented public functions of a Rust file whose documentation lacks examples.
    pub fn detect_api_documentation_gaps(&self, content: &str, file_path: &str) -> (r: Result<Vec<DetectedGap>, GapAnalysisError>)
        requires
            self.wf(),
            content@.len() < usize::MAX,
        ensures
            r matches Ok(gaps) && gap_views(gaps@) == api_documentation_gaps(file_path@, content@),
    {
        if !has_extension(file_path, "rs") {
            return Ok(Vec::new());
        }
        let lines = lines_of(content);
        let functions = pattern_captures(&self.patterns.rust_function, content);
        Ok(gaps_for_captures(CaptureRule::FunctionExamples, file_path, &lines, &functions))
    }

    /// Detect configuration keys that may need documentation; only TOML files are scanned.
    pub fn detect_configuration_gaps(&self, content: &str, file_path: &str) -> (r: Result<Vec<DetectedGap>, GapAnalysisError>)
        requires
            self.wf(),
            content@.len() < usize::MAX,
        ensures
            r matches Ok(gaps) && gap_views(gaps@) == configuration_gaps(file_path@, content@),
    {
        let is_config_file = match extension_of(file_path) {
            Some(e) => str_equal(e.as_str(), "toml") || str_equal(e.as_str(), "yaml") || str_equal(e.as_str(), "yml")
                || str_equal(e.as_str(), "json"),
            None => false,
        };
        if !is_config_file {
            return Ok(Vec::new());
        }
        if !has_extension(file_path, "toml") {
            return Ok(Vec::new());
        }
        let lines = lines_of(content);
        let keys = pattern_captures(&self.patterns.config_key, content);
        Ok(gaps_for_captures(CaptureRule::ConfigKey, file_path, &lines, &keys))
    }

    /// Run the enabled detectors over a file's content and keep the gaps whose confidence
    /// reaches the configured threshold.
    pub fn analyze_content(&self, content: &str, file_path: &str) -> (r: Result<Vec<DetectedGap>, GapAnalysisError>)
        requires
            self.wf(),
            content@.len() < usize::MAX,
        ensures
            r matches Ok(gaps) && gap_views(gaps@) == reported_gaps(self.settings(), file_path@, content@),
    {
        let ghost config = self.config;
        let mut gaps: Vec<DetectedGap> = Vec::new();
        if self.config.enable_todo_detection {
            let found = self.detect_todo_comments(content, file_path);
            extend_gaps(&mut gaps, found);
        }
        let ghost after_todo = gap_views(gaps@);
        if self.config.enable_docs_detection {
            match self.detect_missing_documentation(content, file_path) {
                Ok(found) => extend_gaps(&mut gaps, found),
                Err(e) => return Err(e),
            }
        }
        let ghost after_docs = gap_views(gaps@);
        if self.config.enable_tech_detection {
            match self.detect_undocumented_technologies(content, file_path) {
                Ok(found) => extend_gaps(&mut gaps, found),
                Err(e) => return Err(e),
            }
        }
        let ghost after_tech = gap_views(gaps@);
        if self.config.enable_api_detection {
            match self.detect_api_documentation_gaps(content, file_path) {
                Ok(found) => extend_gaps(&mut gaps, found),
                Err(e) => return Err(e),
            }
        }
        let ghost after_api = gap_views(gaps@);
        if self.config.enable_config_detection {
            match self.detect_configuration_gaps(content, file_path) {
                Ok(found) => extend_gaps(&mut gaps, found),
                Err(e) => return Err(e),
            }
        }
        proof {
            let e = Seq::<GapRecord>::empty();
            assert(after_todo =~= e + (if config.enable_todo_detection { todo_gaps(todo_sources(config), file_path@, text_lines(content@)) } else { e }));
            assert(gap_views(gaps@) =~= detected_gaps(config, file_path@, content@));
        }
        Ok(retain_confident(gaps, self.config.min_confidence_percent))
    }

    /// Check a file's size against the configured limit.
    pub fn check_file_size(&self, size: u64) -> (r: Result<(), GapAnalysisError>)
        ensures
            r is Ok <==> size <= self.settings().max_file_size_bytes,
            r is Err ==> (r matches Err(GapAnalysisError::FileTooLarge { size: s, limit: l })
                && s == size && l == self.settings().max_file_size_bytes),
    {
        if size > self.config.max_file_size_bytes {
            Err(GapAnalysisError::FileTooLarge { size, limit: self.config.max_file_size_bytes })
        } else {
            Ok(())
        }
    }
}

/// A gap as detection makes it: prioritised by its type, on a 1-based line, with no
/// column.
pub open spec fn detection_shaped(g: GapRecord) -> bool {
    g.priority == gap_priority(g.gap_type) && g.line_number >= 1 && g.column_number is None
}

proof fn lemma_todo_gaps_shaped(todo: Seq<Seq<char>>, path: Seq<char>, lines: Seq<Seq<char>>)
    ensures
        forall|i: int| 0 <= i < todo_gaps(todo, path, lines).len() ==> detection_shaped(#[trigger] todo_gaps(todo, path, lines)[i]),
    decreases lines.len(),
{
    if lines.len() > 0 {
        let earlier = todo_gaps(todo, path, lines.drop_last());
        lemma_todo_gaps_shaped(todo, path, lines.drop_last());
        match todo_gap(todo, path, lines.last(), lines.len() - 1) {
            Some(g) => {
                assert(detection_shaped(g));
                assert forall|i: int| 0 <= i < earlier.push(g).len() implies detection_shaped(#[trigger] earlier.push(g)[i]) by {
                    if i < earlier.len() {
                        assert(earlier.push(g)[i] == earlier[i]);
                    }
                }
            },
            None => {},
        }
    }
}

proof fn lemma_capture_gaps_shaped(rule: CaptureRule, path: Seq<char>, lines: Seq<Seq<char>>, cs: Seq<(Seq<char>, Seq<Option<Seq<char>>>)>)
    ensures
        forall|i: int| 0 <= i < capture_gaps(rule, path, lines, cs).len()
            ==> detection_shaped(#[trigger] capture_gaps(rule, path, lines, cs)[i]),
    decreases cs.len(),
{
    if cs.len() > 0 {
        let earlier = capture_gaps(rule, path, lines, cs.drop_last());
        lemma_capture_gaps_shaped(rule, path, lines, cs.drop_last());
        match capture_gap(rule, path, lines, cs.last()) {
            Some(g) => {
                assert(detection_shaped(g));
                assert forall|i: int| 0 <= i < earlier.push(g).len() implies detection_shaped(#[trigger] earlier.push(g)[i]) by {
                    if i < earlier.len() {
                        assert(earlier.push(g)[i] == earlier[i]);
                    }
                }
            },
            None => {},
        }
    }
}

proof fn lemma_concat_shaped(a: Seq<GapRecord>, b: Seq<GapRecord>)
    requires
        forall|i: int| 0 <= i < a.len() ==> detection_shaped(#[trigger] a[i]),
        forall|i: int| 0 <= i < b.len() ==> detection_shaped(#[trigger] b[i]),
    ensures
        forall|i: int| 0 <= i < (a + b).len() ==> detection_shaped(#[trigger] (a + b)[i]),
{
    assert forall|i: int| 0 <= i < (a + b).len() implies detection_shaped(#[trigger] (a + b)[i]) by {
        if i < a.len() {
            assert((a + b)[i] == a[i]);
        } else {
            assert((a + b)[i] == b[i - a.len()]);
        }
    }
}

/// Every gap that analysing a file reports carries the priority of its type, a 1-based
/// line number and no column.
pub proof fn lemma_reported_gaps_shaped(config: GapAnalysisConfig, path: Seq<char>, content: Seq<char>, g: GapRecord)
    requires
        reported_gaps(config, path, content).contains(g),
    ensures
        detection_shaped(g),
{
    let lines = text_lines(content);
    let e = Seq::<GapRecord>::empty();
    lemma_todo_gaps_shaped(todo_sources(config), path, lines);
    lemma_capture_gaps_shaped(CaptureRule::FunctionDocumentation, path, lines, regex_captures(FUNCTION_PATTERN@, content));
    lemma_capture_gaps_shaped(CaptureRule::StructDocumentation, path, lines, regex_captures(STRUCT_PATTERN@, content));
    lemma_capture_gaps_shaped(CaptureRule::ExternalCrate, path, lines, regex_captures(USE_PATTERN@, content));
    lemma_capture_gaps_shaped(CaptureRule::FunctionExamples, path, lines, regex_captures(FUNCTION_PATTERN@, content));
    lemma_capture_gaps_shaped(CaptureRule::ConfigKey, path, lines, regex_captures(CONFIG_KEY_PATTERN@, content));
    let t = if config.enable_todo_detection { todo_gaps(todo_sources(config), path, lines) } else { e };
    let d0 = missing_documentation_gaps(path, content);
    if rust_file(path) {
        lemma_concat_shaped(
            capture_gaps(CaptureRule::FunctionDocumentation, path, lines, regex_captures(FUNCTION_PATTERN@, content)),
            capture_gaps(CaptureRule::StructDocumentation, path, lines, regex_captures(STRUCT_PATTERN@, content)),
        );
    }
    let d = if config.enable_docs_detection { d0 } else { e };
    let te = if config.enable_tech_detection { technology_gaps(path, content) } else { e };
    let a = if config.enable_api_detection { api_documentation_gaps(path, content) } else { e };
    let c = if config.enable_config_detection { configuration_gaps(path, content) } else { e };
    lemma_concat_shaped(t, d);
    lemma_concat_shaped(t + d, te);
    lemma_concat_shaped(t + d + te, a);
    lemma_concat_shaped(t + d + te + a, c);
    let all = detected_gaps(config, path, content);
    assert(all == t + d + te + a + c);
    lemma_confident_gaps_meet_threshold(all, config.min_confidence_percent, g);
    let i = choose|i: int| 0 <= i < all.len() && all[i] == g;
    assert(detection_shaped(all[i]));
}

} // verus!
