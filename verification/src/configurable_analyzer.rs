//! Configurable analysis: the patterns a gap detection configuration compiles, and the
//! exclusion, urgency and custom priority rules it applies to detected gaps.

use vstd::prelude::*;
use vstd::string::StringSliceAdditionalSpecFns;
use std::collections::HashMap;
use crate::config::{compile_patterns_in, first_invalid_pattern, ConfigurationError, CustomPriorityRule, ExclusionRules, ValidationRules};
use crate::gap_analyzer::{gap_type_name, metadata_view, DetectedGap, GapAnalysisError, GapRecord};
use crate::patterns::{
    compile_pattern, error_message, pattern_matches, pattern_sources, regex_compiles, regex_is_match, CompiledPattern,
};
use crate::text::{append_decimal, contains_seq, decimal, lowercase, starts_with_seq, str_contains, str_equal, string_views, to_lowercase};

verus! {

/// Information about a rule that was applied to a gap.
#[derive(Debug, Clone)]
pub struct AppliedRule {
    /// Rule name
    pub rule_name: String,
    /// Rule type (filter, priority, validation)
    pub rule_type: String,
    /// Rule effect (passed, failed, priority_boost, etc.)
    pub effect: String,
    /// Additional details about rule application, each key once, in the order recorded
    pub details: Vec<(String, String)>,
}

/// Summary of configuration used for analysis.
#[derive(Debug, Clone)]
pub struct ConfigSummary {
    /// Configuration preset name (if applicable)
    pub preset_name: Option<String>,
    /// Key configuration settings
    pub key_settings: HashMap<String, String>,
    /// Enabled rule types
    pub enabled_rules: Vec<String>,
    /// Performance limits applied
    pub performance_limits: HashMap<String, u64>,
}

/// Errors that can occur during configurable gap analysis.
#[derive(Debug)]
pub enum ConfigurableAnalysisError {
    GapAnalysis(GapAnalysisError),
    SemanticAnalysis(String),
    Configuration(ConfigurationError),
    RuleEvaluation { rule: String, error: String },
    PriorityCalculation(String),
    Filtering(String),
}

/// The pattern lists of a gap detection configuration that analysis compiles.
#[derive(Debug, Clone)]
pub struct RulePatternConfig {
    /// Custom TODO patterns
    pub todo_patterns: Vec<String>,
    /// Valid documentation patterns
    pub doc_patterns: Vec<String>,
    /// Technology patterns
    pub tech_patterns: Vec<String>,
    /// Exclusion patterns of the filtering rules
    pub exclusion_patterns: Vec<String>,
    /// Custom validation patterns
    pub validation_patterns: Vec<String>,
    /// Custom priority rules, whose content patterns are compiled
    pub priority_rules: Vec<CustomPriorityRule>,
}

/// The plain pattern lists of a configuration, in the order they are compiled.
pub open spec fn pattern_lists(c: RulePatternConfig) -> Seq<Seq<Seq<char>>> {
    seq![
        string_views(c.todo_patterns@),
        string_views(c.doc_patterns@),
        string_views(c.tech_patterns@),
        string_views(c.exclusion_patterns@),
        string_views(c.validation_patterns@),
    ]
}

/// The content patterns of the priority rules that have one, with the rule's name.
pub open spec fn priority_rule_sources(rules: Seq<CustomPriorityRule>) -> Seq<(Seq<char>, Seq<char>)>
    decreases rules.len(),
{
    if rules.len() == 0 {
        Seq::empty()
    } else {
        let earlier = priority_rule_sources(rules.drop_last());
        match rules.last().content_pattern {
            Some(p) => earlier.push((rules.last().name@, p@)),
            None => earlier,
        }
    }
}

/// The first priority rule whose content pattern does not compile, reported as
/// `Priority rule <name>` with the pattern.
pub open spec fn priority_rule_error(rules: Seq<CustomPriorityRule>) -> Option<(Seq<char>, Seq<char>)>
    decreases rules.len(),
{
    if rules.len() == 0 {
        None
    } else {
        match rules[0].content_pattern {
            Some(p) => if !regex_compiles(p@) {
                Some(("Priority rule "@ + rules[0].name@, p@))
            } else {
                priority_rule_error(rules.drop_first())
            },
            None => priority_rule_error(rules.drop_first()),
        }
    }
}

/// The first refused pattern of a list, with the list's context.
pub open spec fn list_error(context: Seq<char>, patterns: Seq<Seq<char>>) -> Option<(Seq<char>, Seq<char>)> {
    match first_invalid_pattern(patterns) {
        Some(p) => Some((context, p)),
        None => None,
    }
}

/// The first refused pattern of a configuration with its context: the TODO,
/// documentation, technology, exclusion and validation lists, then the priority rules.
pub open spec fn config_pattern_error(c: RulePatternConfig) -> Option<(Seq<char>, Seq<char>)> {
    let l = pattern_lists(c);
    if list_error("TODO patterns"@, l[0]) is Some {
        list_error("TODO patterns"@, l[0])
    } else if list_error("Documentation patterns"@, l[1]) is Some {
        list_error("Documentation patterns"@, l[1])
    } else if list_error("Technology patterns"@, l[2]) is Some {
        list_error("Technology patterns"@, l[2])
    } else if list_error("Exclusion patterns"@, l[3]) is Some {
        list_error("Exclusion patterns"@, l[3])
    } else if list_error("Validation patterns"@, l[4]) is Some {
        list_error("Validation patterns"@, l[4])
    } else {
        priority_rule_error(c.priority_rules@)
    }
}

/// Compiled patterns of a configuration.
#[derive(Debug)]
pub struct CompiledConfigPatterns {
    todo_patterns: Vec<CompiledPattern>,
    doc_patterns: Vec<CompiledPattern>,
    tech_patterns: Vec<CompiledPattern>,
    exclusion_patterns: Vec<CompiledPattern>,
    validation_patterns: Vec<CompiledPattern>,
    priority_rule_patterns: Vec<(String, CompiledPattern)>,
}

impl CompiledConfigPatterns {
    /// The pattern texts of the compiled lists, in the order of `pattern_lists`.
    pub closed spec fn sources(&self) -> Seq<Seq<Seq<char>>> {
        seq![
            pattern_sources(self.todo_patterns@),
            pattern_sources(self.doc_patterns@),
            pattern_sources(self.tech_patterns@),
            pattern_sources(self.exclusion_patterns@),
            pattern_sources(self.validation_patterns@),
        ]
    }

    /// The compiled content patterns of the priority rules, with the rule names.
    pub closed spec fn priority_sources(&self) -> Seq<(Seq<char>, Seq<char>)> {
        self.priority_rule_patterns@.map_values(|e: (String, CompiledPattern)| (e.0@, e.1.source()))
    }
}

/// Compile the content patterns of the priority rules, in order.
fn compile_priority_rules(rules: &Vec<CustomPriorityRule>) -> (r: Result<Vec<(String, CompiledPattern)>, ConfigurationError>)
    ensures
        match r {
            Ok(v) => priority_rule_error(rules@) is None
                && v@.map_values(|e: (String, CompiledPattern)| (e.0@, e.1.source())) == priority_rule_sources(rules@),
            Err(e) => (e matches ConfigurationError::InvalidRegex { context: c, pattern: p, .. }
                && priority_rule_error(rules@) == Some((c@, p@))),
        },
{
    let mut compiled: Vec<(String, CompiledPattern)> = Vec::new();
    let mut i: usize = 0;
    assert(rules@.skip(0) =~= rules@);
    while i < rules.len()
        invariant
            i <= rules@.len(),
            priority_rule_error(rules@) == priority_rule_error(rules@.skip(i as int)),
            compiled@.map_values(|e: (String, CompiledPattern)| (e.0@, e.1.source())) == priority_rule_sources(rules@.take(i as int)),
        decreases rules.len() - i,
    {
        let ghost rest = rules@.skip(i as int);
        let ghost before = compiled@;
        assert(rest[0] == rules@[i as int]);
        assert(rest.drop_first() =~= rules@.skip(i + 1));
        assert(rules@.take(i + 1).drop_last() =~= rules@.take(i as int));
        assert(rules@.take(i + 1).last() == rules@[i as int]);
        let rule = &rules[i];
        match &rule.content_pattern {
            Some(pattern) => match compile_pattern(pattern.as_str()) {
                Ok(p) => {
                    compiled.push((rule.name.clone(), p));
                    assert(compiled@.map_values(|e: (String, CompiledPattern)| (e.0@, e.1.source()))
                        =~= before.map_values(|e: (String, CompiledPattern)| (e.0@, e.1.source())).push((rule.name@, pattern@)));
                },
                Err(e) => {
                    let mut context = String::new();
                    context.append("Priority rule ");
                    context.append(rule.name.as_str());
                    let message = error_message(&e);
                    return Err(ConfigurationError::InvalidRegex { context, pattern: pattern.clone(), error: message });
                },
            },
            None => {},
        }
        i = i + 1;
    }
    assert(rules@.take(i as int) =~= rules@);
    Ok(compiled)
}

/// Compile the patterns of a configuration, list after list; the first that fails is
/// reported as a configuration error.
pub fn compile_patterns(config: &RulePatternConfig) -> (r: Result<CompiledConfigPatterns, ConfigurableAnalysisError>)
    ensures
        r is Ok <==> config_pattern_error(*config) is None,
        match r {
            Ok(c) => c.sources() == pattern_lists(*config) && c.priority_sources() == priority_rule_sources(config.priority_rules@),
            Err(e) => (e matches ConfigurableAnalysisError::Configuration(ConfigurationError::InvalidRegex { context: ctx, pattern: p, .. })
                && config_pattern_error(*config) == Some((ctx@, p@))),
        },
{
    let ghost l = pattern_lists(*config);
    let todo_patterns = match compile_patterns_in("TODO patterns", &config.todo_patterns) {
        Ok(v) => v,
        Err(e) => return Err(ConfigurableAnalysisError::Configuration(e)),
    };
    let doc_patterns = match compile_patterns_in("Documentation patterns", &config.doc_patterns) {
        Ok(v) => v,
        Err(e) => return Err(ConfigurableAnalysisError::Configuration(e)),
    };
    let tech_patterns = match compile_patterns_in("Technology patterns", &config.tech_patterns) {
        Ok(v) => v,
        Err(e) => return Err(ConfigurableAnalysisError::Configuration(e)),
    };
    let exclusion_patterns = match compile_patterns_in("Exclusion patterns", &config.exclusion_patterns) {
        Ok(v) => v,
        Err(e) => return Err(ConfigurableAnalysisError::Configuration(e)),
    };
    let validation_patterns = match compile_patterns_in("Validation patterns", &config.validation_patterns) {
        Ok(v) => v,
        Err(e) => return Err(ConfigurableAnalysisError::Configuration(e)),
    };
    let priority_rule_patterns = match compile_priority_rules(&config.priority_rules) {
        Ok(v) => v,
        Err(e) => return Err(ConfigurableAnalysisError::Configuration(e)),
    };
    let c = CompiledConfigPatterns {
        todo_patterns,
        doc_patterns,
        tech_patterns,
        exclusion_patterns,
        validation_patterns,
        priority_rule_patterns,
    };
    assert(c.sources() =~= pattern_lists(*config));
    Ok(c)
}

/// The outcome of a rule check on a gap: whether it passed, and what each check found.
#[derive(Debug, Clone)]
pub struct RuleEvaluation {
    pub passed: bool,
    pub details: Vec<(String, String)>,
}

/// The first exclusion pattern, by position from `from`, that matches the context or
/// the description.
pub open spec fn first_exclusion_hit(sources: Seq<Seq<char>>, context: Seq<char>, description: Seq<char>, from: int) -> Option<int>
    decreases sources.len() - from,
{
    if from < 0 || from >= sources.len() {
        None
    } else if regex_is_match(sources[from], context) || regex_is_match(sources[from], description) {
        Some(from)
    } else {
        first_exclusion_hit(sources, context, description, from + 1)
    }
}

/// Whether the gap's type is among the excluded ones.
pub open spec fn type_excluded(rules: ExclusionRules, gap: GapRecord) -> bool {
    exists|i: int| 0 <= i < rules.exclude_gap_types@.len()
        && #[trigger] string_views(rules.exclude_gap_types@)[i] == gap_type_name(gap.gap_type)
}

/// A gap passes the exclusion rules when no exclusion pattern matches it, no
/// non-actionable keyword occurs in its description and its type is not excluded.
pub open spec fn exclusion_passed(sources: Seq<Seq<char>>, rules: ExclusionRules, gap: GapRecord) -> bool {
    first_exclusion_hit(sources, gap.context, gap.description, 0) is None
        && rules.first_keyword_hit(gap.description, 0) is None && !type_excluded(rules, gap)
}

/// What the exclusion check records: the first matching pattern, the first keyword
/// found, the excluded type, or that the check passed, in that order.
pub open spec fn exclusion_details(sources: Seq<Seq<char>>, rules: ExclusionRules, gap: GapRecord) -> Seq<(Seq<char>, Seq<char>)> {
    (match first_exclusion_hit(sources, gap.context, gap.description, 0) {
        Some(i) => seq![("exclusion_pattern_"@ + decimal(i as nat), "matched"@)],
        None => Seq::empty(),
    }) + (match rules.first_keyword_hit(gap.description, 0) {
        Some(k) => seq![("non_actionable_keyword"@, rules.non_actionable_keywords@[k]@)],
        None => Seq::empty(),
    }) + (if type_excluded(rules, gap) {
        seq![("gap_type_excluded"@, gap_type_name(gap.gap_type))]
    } else {
        Seq::empty()
    }) + (if exclusion_passed(sources, rules, gap) {
        seq![("exclusion_check"@, "passed"@)]
    } else {
        Seq::empty()
    })
}

/// Append the entry `(key, value)` to `details`.
fn add_detail(details: &mut Vec<(String, String)>, key: String, value: String)
    ensures
        metadata_view(final(details)@) == metadata_view(old(details)@).push((key@, value@)),
{
    let ghost before = details@;
    details.push((key, value));
    assert(metadata_view(details@) =~= metadata_view(before).push((key@, value@)));
}

/// The position of the first exclusion pattern that matches the gap's context or description.
fn first_exclusion_match(patterns: &CompiledConfigPatterns, gap: &DetectedGap) -> (r: Option<usize>)
    ensures
        match r {
            Some(i) => first_exclusion_hit(patterns.sources()[3], gap@.context, gap@.description, 0) == Some(i as int),
            None => first_exclusion_hit(patterns.sources()[3], gap@.context, gap@.description, 0) is None,
        },
{
    let ghost sources = patterns.sources()[3];
    let mut i: usize = 0;
    while i < patterns.exclusion_patterns.len()
        invariant
            i <= patterns.exclusion_patterns@.len(),
            sources == patterns.sources()[3],
            sources == pattern_sources(patterns.exclusion_patterns@),
            first_exclusion_hit(sources, gap@.context, gap@.description, 0)
                == first_exclusion_hit(sources, gap@.context, gap@.description, i as int),
        decreases patterns.exclusion_patterns.len() - i,
    {
        let p = &patterns.exclusion_patterns[i];
        if pattern_matches(p, gap.context.as_str()) || pattern_matches(p, gap.description.as_str()) {
            return Some(i);
        }
        i = i + 1;
    }
    None
}

/// The exclusion check of a gap, given which exclusion pattern (by position) first
/// matched its context or description, if any.
pub fn exclusion_evaluation(rules: &ExclusionRules, gap: &DetectedGap, pattern_hit: Option<usize>) -> (r: RuleEvaluation)
    ensures
        r.passed == (pattern_hit is None && rules.first_keyword_hit(gap@.description, 0) is None
            && !type_excluded(*rules, gap@)),
        metadata_view(r.details@) == (match pattern_hit {
            Some(i) => seq![("exclusion_pattern_"@ + decimal(i as nat), "matched"@)],
            None => Seq::empty(),
        }) + (match rules.first_keyword_hit(gap@.description, 0) {
            Some(k) => seq![("non_actionable_keyword"@, rules.non_actionable_keywords@[k]@)],
            None => Seq::empty(),
        }) + (if type_excluded(*rules, gap@) {
            seq![("gap_type_excluded"@, gap_type_name(gap@.gap_type))]
        } else {
            Seq::empty()
        }) + (if r.passed {
            seq![("exclusion_check"@, "passed"@)]
        } else {
            Seq::empty()
        }),
{
    let mut details: Vec<(String, String)> = Vec::new();
    let mut passed = true;
    match pattern_hit {
        Some(i) => {
            passed = false;
            let mut key = String::new();
            key.append("exclusion_pattern_");
            append_decimal(&mut key, i as u64);
            add_detail(&mut details, key, "matched".to_owned());
        },
        None => {},
    }
    match rules.non_actionable_keyword(gap.description.as_str()) {
        Some(k) => {
            passed = false;
            add_detail(&mut details, "non_actionable_keyword".to_owned(), rules.non_actionable_keywords[k].clone());
        },
        None => {},
    }
    let name = gap.gap_type.debug_name();
    if rules.excludes_gap_type(name) {
        passed = false;
        add_detail(&mut details, "gap_type_excluded".to_owned(), name.to_owned());
    }
    if passed {
        add_detail(&mut details, "exclusion_check".to_owned(), "passed".to_owned());
    }
    let r = RuleEvaluation { passed, details };
    proof {
        let hit_part: Seq<(Seq<char>, Seq<char>)> = match pattern_hit {
            Some(i) => seq![("exclusion_pattern_"@ + decimal(i as nat), "matched"@)],
            None => Seq::empty(),
        };
        assert(metadata_view(r.details@) =~= hit_part + (match rules.first_keyword_hit(gap@.description, 0) {
            Some(k) => seq![("non_actionable_keyword"@, rules.non_actionable_keywords@[k]@)],
            None => Seq::empty(),
        }) + (if type_excluded(*rules, gap@) {
            seq![("gap_type_excluded"@, gap_type_name(gap@.gap_type))]
        } else {
            Seq::empty()
        }) + (if r.passed {
            seq![("exclusion_check"@, "passed"@)]
        } else {
            Seq::empty()
        }));
    }
    r
}

/// Evaluate the exclusion rules for a gap.
pub fn evaluate_exclusion_rules(patterns: &CompiledConfigPatterns, rules: &ExclusionRules, gap: &DetectedGap) -> (r: RuleEvaluation)
    ensures
        r.passed == exclusion_passed(patterns.sources()[3], *rules, gap@),
        metadata_view(r.details@) == exclusion_details(patterns.sources()[3], *rules, gap@),
{
    let hit = first_exclusion_match(patterns, gap);
    exclusion_evaluation(rules, gap, hit)
}

/// The text that urgency and content rules look at: the context, a space, the description.
pub open spec fn gap_text(gap: GapRecord) -> Seq<char> {
    gap.context + " "@ + gap.description
}

/// The context and description of a gap joined by a space.
fn joined_text(gap: &DetectedGap) -> (s: String)
    ensures
        s@ == gap_text(gap@),
{
    let mut s = String::new();
    s.append(gap.context.as_str());
    s.append(" ");
    s.append(gap.description.as_str());
    s
}

/// Check if a gap mentions an urgent keyword, both compared in lower case.
pub fn has_urgent_keywords(urgent_keywords: &Vec<String>, gap: &DetectedGap) -> (r: bool)
    ensures
        r == exists|i: int| 0 <= i < urgent_keywords@.len()
            && contains_seq(lowercase(gap_text(gap@)), lowercase(#[trigger] urgent_keywords@[i]@)),
{
    let text = joined_text(gap);
    let lowered = to_lowercase(text.as_str());
    let mut i: usize = 0;
    while i < urgent_keywords.len()
        invariant
            i <= urgent_keywords@.len(),
            lowered@ == lowercase(gap_text(gap@)),
            forall|k: int| 0 <= k < i ==> !contains_seq(lowercase(gap_text(gap@)), lowercase(#[trigger] urgent_keywords@[k]@)),
        decreases urgent_keywords.len() - i,
    {
        let kw = to_lowercase(urgent_keywords[i].as_str());
        if str_contains(lowered.as_str(), kw.as_str()) {
            return true;
        }
        i = i + 1;
    }
    false
}

/// The pattern of the first entry named `name`.
pub open spec fn first_named(entries: Seq<(Seq<char>, Seq<char>)>, name: Seq<char>) -> Option<Seq<char>>
    decreases entries.len(),
{
    if entries.len() == 0 {
        None
    } else if entries[0].0 == name {
        Some(entries[0].1)
    } else {
        first_named(entries.drop_first(), name)
    }
}

/// A custom priority rule applies to a gap when each condition it sets holds: its file
/// pattern matches the gap's file path, its gap type pattern occurs in the gap type's
/// name, and the compiled content pattern of the rule's name (if any) matches the gap's
/// text.
pub open spec fn rule_applies(sources: Seq<(Seq<char>, Seq<char>)>, rule: CustomPriorityRule, gap: GapRecord) -> bool {
    let file_ok = match rule.file_pattern {
        Some(fp) => regex_is_match(fp@, gap.file_path),
        None => true,
    };
    let type_ok = match rule.gap_type_pattern {
        Some(t) => contains_seq(gap_type_name(gap.gap_type), t@),
        None => true,
    };
    let content_ok = match rule.content_pattern {
        Some(_) => match first_named(sources, rule.name@) {
            Some(src) => regex_is_match(src, gap_text(gap)),
            None => true,
        },
        None => true,
    };
    file_ok && type_ok && content_ok
}

/// The compiled content pattern of the first entry with the rule's name.
fn find_rule_pattern<'a>(patterns: &'a CompiledConfigPatterns, name: &str) -> (r: Option<&'a CompiledPattern>)
    ensures
        match r {
            Some(p) => first_named(patterns.priority_sources(), name@) == Some(p.source()),
            None => first_named(patterns.priority_sources(), name@) is None,
        },
{
    let ghost entries = patterns.priority_sources();
    let mut i: usize = 0;
    assert(entries.skip(0) =~= entries);
    while i < patterns.priority_rule_patterns.len()
        invariant
            i <= patterns.priority_rule_patterns@.len(),
            entries == patterns.priority_sources(),
            first_named(entries, name@) == first_named(entries.skip(i as int), name@),
        decreases patterns.priority_rule_patterns.len() - i,
    {
        let ghost rest = entries.skip(i as int);
        assert(rest[0] == (patterns.priority_rule_patterns@[i as int].0@, patterns.priority_rule_patterns@[i as int].1.source()));
        if str_equal(patterns.priority_rule_patterns[i].0.as_str(), name) {
            return Some(&patterns.priority_rule_patterns[i].1);
        }
        assert(rest.drop_first() =~= entries.skip(i + 1));
        i = i + 1;
    }
    assert(entries.skip(i as int).len() == 0);
    None
}

/// Evaluate a custom priority rule against a gap; fails when the rule's file pattern does
/// not compile.
pub fn evaluate_custom_priority_rule(patterns: &CompiledConfigPatterns, rule: &CustomPriorityRule, gap: &DetectedGap) -> (r: Result<bool, ConfigurableAnalysisError>)
    ensures
        r is Err <==> (rule.file_pattern matches Some(fp) && !regex_compiles(fp@)),
        match r {
            Ok(applies) => applies == rule_applies(patterns.priority_sources(), *rule, gap@),
            Err(e) => (e matches ConfigurableAnalysisError::RuleEvaluation { rule: name, error: message }
                && name@ == rule.name@ && starts_with_seq(message@, "Invalid file pattern: "@)),
        },
{
    let mut matches = true;
    match &rule.file_pattern {
        Some(file_pattern) => match compile_pattern(file_pattern.as_str()) {
            Ok(file_regex) => {
                if !pattern_matches(&file_regex, gap.file_path.as_str()) {
                    matches = false;
                }
            },
            Err(e) => {
                let mut message = String::new();
                message.append("Invalid file pattern: ");
                let ghost prefix = message@;
                let detail = error_message(&e);
                message.append(detail.as_str());
                proof {
                    reveal_strlit("Invalid file pattern: ");
                    assert(message@.subrange(0, prefix.len() as int) =~= prefix);
                }
                return Err(ConfigurableAnalysisError::RuleEvaluation { rule: rule.name.clone(), error: message });
            },
        },
        None => {},
    }
    match &rule.gap_type_pattern {
        Some(type_pattern) => {
            if !str_contains(gap.gap_type.debug_name(), type_pattern.as_str()) {
                matches = false;
            }
        },
        None => {},
    }
    match &rule.content_pattern {
        Some(_) => match find_rule_pattern(patterns, rule.name.as_str()) {
            Some(regex) => {
                let text = joined_text(gap);
                if !pattern_matches(regex, text.as_str()) {
                    matches = false;
                }
            },
            None => {},
        },
        None => {},
    }
    Ok(matches)
}

/// Gap `a` ranks before gap `b` when its priority is higher, or equal and it came first:
/// the order of a stable sort by descending priority.
pub open spec fn ranked_before(priorities: Seq<u8>, a: int, b: int) -> bool {
    priorities[a] > priorities[b] || (priorities[a] == priorities[b] && a < b)
}

/// Where an index whose priority is `p` goes in `order`, which is ranked by descending
/// priority: after every entry of at least that priority.
fn insertion_point(priorities: &Vec<u8>, order: &Vec<usize>, p: u8) -> (q: usize)
    requires
        forall|i: int| 0 <= i < order@.len() ==> order@[i] < priorities@.len(),
        forall|i: int, j: int| 0 <= i < j < order@.len()
            ==> #[trigger] ranked_before(priorities@, order@[i] as int, order@[j] as int),
    ensures
        q <= order@.len(),
        forall|i: int| 0 <= i < q ==> priorities@[order@[i] as int] >= p,
        forall|i: int| q <= i < order@.len() ==> priorities@[order@[i] as int] < p,
{
    let mut q: usize = 0;
    while q < order.len()
        invariant
            q <= order@.len(),
            forall|i: int| 0 <= i < order@.len() ==> order@[i] < priorities@.len(),
            forall|i: int, j: int| 0 <= i < j < order@.len()
                ==> #[trigger] ranked_before(priorities@, order@[i] as int, order@[j] as int),
            forall|i: int| 0 <= i < q ==> priorities@[order@[i] as int] >= p,
        decreases order.len() - q,
    {
        if priorities[order[q]] < p {
            assert forall|i: int| q <= i < order@.len() implies priorities@[order@[i] as int] < p by {
                if i > q {
                    assert(ranked_before(priorities@, order@[q as int] as int, order@[i] as int));
                }
            }
            return q;
        }
        q = q + 1;
    }
    q
}

/// The gaps to keep after priorities are settled, by index: ranked by descending
/// priority, ties in their original order, at most `limit` of them.
pub fn rank_by_enhanced_priority(priorities: &Vec<u8>, limit: usize) -> (r: Vec<usize>)
    ensures
        r@.len() == (if priorities@.len() < limit { priorities@.len() } else { limit as nat }),
        forall|i: int| 0 <= i < r@.len() ==> r@[i] < priorities@.len(),
        forall|i: int, j: int| 0 <= i < j < r@.len()
            ==> #[trigger] ranked_before(priorities@, r@[i] as int, r@[j] as int),
        forall|k: int, i: int| 0 <= k < priorities@.len() && !r@.contains(k as usize) && 0 <= i < r@.len()
            ==> #[trigger] ranked_before(priorities@, r@[i] as int, k),
{
    let n = priorities.len();
    let mut order: Vec<usize> = Vec::new();
    let mut i: usize = 0;
    while i < n
        invariant
            n == priorities@.len(),
            i <= n,
            order@.len() == i,
            forall|k: int| 0 <= k < order@.len() ==> order@[k] < i,
            forall|k: usize| k < i ==> #[trigger] order@.contains(k),
            forall|a: int, b: int| 0 <= a < b < order@.len()
                ==> #[trigger] ranked_before(priorities@, order@[a] as int, order@[b] as int),
        decreases n - i,
    {
        let q = insertion_point(priorities, &order, priorities[i]);
        let ghost before = order@;
        order.insert(q, i);
        proof {
            assert(order@ == before.insert(q as int, i));
            assert forall|k: usize| k < i + 1 implies #[trigger] order@.contains(k) by {
                if k == i {
                    assert(order@[q as int] == i);
                } else {
                    assert(before.contains(k));
                    let w = choose|w: int| 0 <= w < before.len() && before[w] == k;
                    if w < q {
                        assert(order@[w] == k);
                    } else {
                        assert(order@[w + 1] == k);
                    }
                }
            }
            assert forall|a: int, b: int| 0 <= a < b < order@.len()
                implies #[trigger] ranked_before(priorities@, order@[a] as int, order@[b] as int) by {
                if a < q && b < q {
                    assert(ranked_before(priorities@, before[a] as int, before[b] as int));
                } else if a < q && b == q {
                    assert(before[a] < i);
                } else if a < q && b > q {
                    assert(ranked_before(priorities@, before[a] as int, before[b - 1] as int));
                } else if a == q {
                    assert(priorities@[before[b - 1] as int] < priorities@[i as int]);
                } else {
                    assert(ranked_before(priorities@, before[a - 1] as int, before[b - 1] as int));
                }
            }
        }
        i = i + 1;
    }
    let ghost full = order@;
    if limit < order.len() {
        order.truncate(limit);
    }
    proof {
        assert forall|k: int, a: int| 0 <= k < n && !order@.contains(k as usize) && 0 <= a < order@.len()
            implies #[trigger] ranked_before(priorities@, order@[a] as int, k) by {
            assert(full.contains(k as usize));
            let w = choose|w: int| 0 <= w < full.len() && full[w] == k as usize;
            if w < order@.len() {
                assert(order@[w] == k as usize);
            }
            assert(order@[a] == full[a]);
            assert(ranked_before(priorities@, full[a] as int, full[w] as int));
        }
    }
    order
}

/// The length of a text in bytes, as UTF-8, as `str::len` reports it.
pub open spec fn byte_len(s: Seq<char>) -> int {
    (vstd::utf8::encode_utf8(s).len() as usize) as int
}

/// The length of a string in bytes.
fn string_byte_len(s: &String) -> (n: usize)
    ensures
        n == byte_len(s@),
{
    let t = s.as_str();
    assert(t.spec_bytes() == vstd::utf8::encode_utf8(s@));
    t.len()
}

/// The length limits of the quality thresholds, in bytes. (The limit on the quality
/// score, a fraction, is checked by the caller.)
#[derive(Debug, Clone, Copy, PartialEq, Eq, Structural)]
pub struct QualityLengthLimits {
    /// Minimum content length for valid gaps
    pub min_content_length: usize,
    /// Maximum content length for valid gaps
    pub max_content_length: usize,
    /// Minimum description length
    pub min_description_length: usize,
}

/// What the content length check records: too short, too long, or within the limits.
pub open spec fn content_length_verdict(limits: QualityLengthLimits, len: int) -> Seq<char> {
    if len < limits.min_content_length {
        "failed"@
    } else if len > limits.max_content_length {
        "too_long"@
    } else {
        "passed"@
    }
}

/// The length checks of the quality thresholds on a gap: its context within the content
/// limits, its description no shorter than the minimum.
pub fn evaluate_quality_lengths(limits: &QualityLengthLimits, gap: &DetectedGap) -> (r: RuleEvaluation)
    ensures
        r.passed == (limits.min_content_length <= byte_len(gap.context@) <= limits.max_content_length
            && byte_len(gap.description@) >= limits.min_description_length),
        metadata_view(r.details@) == seq![
            ("content_length_check"@, content_length_verdict(*limits, byte_len(gap.context@))),
            ("description_length_check"@, if byte_len(gap.description@) < limits.min_description_length {
                "failed"@
            } else {
                "passed"@
            }),
        ],
{
    let content_len = string_byte_len(&gap.context);
    let description_len = string_byte_len(&gap.description);
    let mut details: Vec<(String, String)> = Vec::new();
    let mut passed = true;
    if content_len < limits.min_content_length {
        passed = false;
        add_detail(&mut details, "content_length_check".to_owned(), "failed".to_owned());
    } else if content_len > limits.max_content_length {
        passed = false;
        add_detail(&mut details, "content_length_check".to_owned(), "too_long".to_owned());
    } else {
        add_detail(&mut details, "content_length_check".to_owned(), "passed".to_owned());
    }
    if description_len < limits.min_description_length {
        passed = false;
        add_detail(&mut details, "description_length_check".to_owned(), "failed".to_owned());
    } else {
        add_detail(&mut details, "description_length_check".to_owned(), "passed".to_owned());
    }
    RuleEvaluation { passed, details }
}

/// The verdict a check records.
pub open spec fn verdict(ok: bool) -> Seq<char> {
    if ok { "passed"@ } else { "failed"@ }
}

/// Evaluate the validation rules for a gap whose file does or does not exist.
pub fn evaluate_validation_rules(rules: &ValidationRules, gap: &DetectedGap, file_exists: bool) -> (r: RuleEvaluation)
    ensures
        r.passed == (byte_len(gap.context@) >= rules.min_context_length
            && !(rules.require_valid_line_numbers && gap.line_number == 0)
            && !(rules.validate_file_existence && !file_exists)),
        metadata_view(r.details@) == seq![
            ("min_context_length"@, verdict(byte_len(gap.context@) >= rules.min_context_length)),
            ("valid_line_numbers"@, verdict(!(rules.require_valid_line_numbers && gap.line_number == 0))),
            ("file_existence"@, verdict(!(rules.validate_file_existence && !file_exists))),
        ],
{
    let outcome = rules.evaluate(gap.context.as_str(), gap.line_number, file_exists);
    let mut details: Vec<(String, String)> = Vec::new();
    add_detail(
        &mut details,
        "min_context_length".to_owned(),
        if outcome.context_length_ok { "passed".to_owned() } else { "failed".to_owned() },
    );
    add_detail(
        &mut details,
        "valid_line_numbers".to_owned(),
        if outcome.line_number_ok { "passed".to_owned() } else { "failed".to_owned() },
    );
    add_detail(
        &mut details,
        "file_existence".to_owned(),
        if outcome.file_existence_ok { "passed".to_owned() } else { "failed".to_owned() },
    );
    RuleEvaluation {
        passed: outcome.context_length_ok && outcome.line_number_ok && outcome.file_existence_ok,
        details,
    }
}

/// The stages a gap passes through when filtering is on: the quality thresholds, then,
/// while it has passed every stage so far, the exclusion and validation rules.
pub open spec fn filter_stage_count(quality_passed: bool, exclusion_passed: bool) -> int {
    if !quality_passed { 1 } else if !exclusion_passed { 2 } else { 3 }
}

/// The rule applied at a filtering stage, as recorded.
pub open spec fn applied_rule_record(rule: AppliedRule) -> (Seq<char>, Seq<char>, Seq<char>, Seq<(Seq<char>, Seq<char>)>) {
    (rule.rule_name@, rule.rule_type@, rule.effect@, metadata_view(rule.details@))
}

/// Record the outcome of a filtering stage.
fn applied_rule(rule_name: &str, rule_type: &str, passed: bool, failed_effect: &str, details: Vec<(String, String)>) -> (a: AppliedRule)
    ensures
        a.rule_name@ == rule_name@,
        a.rule_type@ == rule_type@,
        a.effect@ == (if passed { "passed"@ } else { failed_effect@ }),
        a.details@ == details@,
{
    AppliedRule {
        rule_name: rule_name.to_owned(),
        rule_type: rule_type.to_owned(),
        effect: if passed { "passed".to_owned() } else { failed_effect.to_owned() },
        details,
    }
}

/// Run a gap through the filters. With filtering off it passes and no rule is
/// recorded. With filtering on, the quality check (made by the caller, who weighs the
/// quality score) comes first; the exclusion rules are applied only to a gap that
/// passed it, and the validation rules (given whether the gap's file exists) only to a
/// gap that passed those too. Returns whether the gap passed and the rules applied, in
/// order.
pub fn filter_gap(
    filtering_enabled: bool,
    quality: RuleEvaluation,
    patterns: &CompiledConfigPatterns,
    exclusion_rules: &ExclusionRules,
    validation_rules: &ValidationRules,
    gap: &DetectedGap,
    file_exists: bool,
) -> (r: (bool, Vec<AppliedRule>))
    ensures
        !filtering_enabled ==> r.0 && r.1@.len() == 0,
        filtering_enabled ==> {
            let excluded_ok = exclusion_passed(patterns.sources()[3], *exclusion_rules, gap@);
            let validated_ok = byte_len(gap.context@) >= validation_rules.min_context_length
                && !(validation_rules.require_valid_line_numbers && gap.line_number == 0)
                && !(validation_rules.validate_file_existence && !file_exists);
            &&& r.0 == (quality.passed && excluded_ok && validated_ok)
            &&& r.1@.len() == filter_stage_count(quality.passed, excluded_ok)
            &&& applied_rule_record(r.1@[0]) == ("quality_thresholds"@, "filter"@,
                if quality.passed { "passed"@ } else { "failed"@ }, metadata_view(quality.details@))
            &&& quality.passed ==> applied_rule_record(r.1@[1]) == ("exclusion_rules"@, "filter"@,
                if excluded_ok { "passed"@ } else { "excluded"@ },
                exclusion_details(patterns.sources()[3], *exclusion_rules, gap@))
            &&& quality.passed && excluded_ok ==> applied_rule_record(r.1@[2]) == ("validation_rules"@, "validation"@,
                verdict(validated_ok), seq![
                    ("min_context_length"@, verdict(byte_len(gap.context@) >= validation_rules.min_context_length)),
                    ("valid_line_numbers"@, verdict(!(validation_rules.require_valid_line_numbers && gap.line_number == 0))),
                    ("file_existence"@, verdict(!(validation_rules.validate_file_existence && !file_exists))),
                ])
        },
{
    let mut applied: Vec<AppliedRule> = Vec::new();
    if !filtering_enabled {
        return (true, applied);
    }
    let quality_passed = quality.passed;
    applied.push(applied_rule("quality_thresholds", "filter", quality_passed, "failed", quality.details));
    let mut passed = quality_passed;
    if passed {
        let exclusion = evaluate_exclusion_rules(patterns, exclusion_rules, gap);
        passed = exclusion.passed;
        applied.push(applied_rule("exclusion_rules", "filter", exclusion.passed, "excluded", exclusion.details));
    }
    if passed {
        let validation = evaluate_validation_rules(validation_rules, gap, file_exists);
        passed = validation.passed;
        applied.push(applied_rule("validation_rules", "validation", validation.passed, "failed", validation.details));
    }
    (passed, applied)
}

} // verus!
