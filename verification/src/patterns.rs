//! Regular expressions from the `regex` crate, compiled once and applied to text.
//! What a match finds is named here and not restated: the crate defines it.

use vstd::prelude::*;
use crate::text::string_views;

verus! {

#[verifier::external_type_specification]
#[verifier::external_body]
pub struct ExRegex(regex::Regex);

#[verifier::external_type_specification]
#[verifier::external_body]
pub struct ExRegexSet(regex::RegexSet);

#[verifier::external_type_specification]
#[verifier::external_body]
pub struct ExRegexError(regex::Error);

/// Whether `regex::Regex::new` accepts a pattern.
pub uninterp spec fn regex_compiles(pattern: Seq<char>) -> bool;

/// Whether `regex::RegexSet::new` accepts a list of patterns.
pub uninterp spec fn regex_set_compiles(patterns: Seq<Seq<char>>) -> bool;

/// Whether `regex::RegexSet::is_match` finds a match of some pattern of the list in `text`.
pub uninterp spec fn regex_set_is_match(patterns: Seq<Seq<char>>, text: Seq<char>) -> bool;

/// Whether `regex::Regex::is_match` finds a match of `pattern` in `text`.
pub uninterp spec fn regex_is_match(pattern: Seq<char>, text: Seq<char>) -> bool;

/// The text of capture group `group` of the first match of `pattern` in `text`, when
/// there is a match and the group took part in it.
pub uninterp spec fn regex_group(pattern: Seq<char>, text: Seq<char>, group: nat) -> Option<Seq<char>>;

/// The successive non-overlapping matches of `pattern` in `text`: for each, the text
/// before the match and the text of every capture group (group 0 being the whole
/// match), `None` for a group that took no part.
pub uninterp spec fn regex_captures(pattern: Seq<char>, text: Seq<char>) -> Seq<(Seq<char>, Seq<Option<Seq<char>>>)>;

/// A compiled regular expression with the pattern it was compiled from.
#[derive(Debug)]
pub struct CompiledPattern {
    source: String,
    regex: regex::Regex,
}

/// A compiled set of regular expressions with the patterns it was compiled from.
#[derive(Debug)]
pub struct CompiledPatternSet {
    sources: Vec<String>,
    set: regex::RegexSet,
}

/// One match: the text before it and the text of each capture group.
#[derive(Debug)]
pub struct PatternCapture {
    pub before: String,
    pub groups: Vec<Option<String>>,
}

/// The text of a capture group, if it took part.
pub open spec fn group_view(g: Option<String>) -> Option<Seq<char>> {
    match g {
        Some(s) => Some(s@),
        None => None,
    }
}

/// The plain values of a match.
pub open spec fn capture_view(c: PatternCapture) -> (Seq<char>, Seq<Option<Seq<char>>>) {
    (c.before@, c.groups@.map_values(|g: Option<String>| group_view(g)))
}

/// The pattern texts of a list of compiled patterns.
pub open spec fn pattern_sources(ps: Seq<CompiledPattern>) -> Seq<Seq<char>> {
    ps.map_values(|p: CompiledPattern| p.source())
}

/// The plain values of a list of matches.
pub open spec fn capture_views(cs: Seq<PatternCapture>) -> Seq<(Seq<char>, Seq<Option<Seq<char>>>)> {
    cs.map_values(|c: PatternCapture| capture_view(c))
}

/// Group `k` of a match, `None` where the pattern has no such group or it took no part.
pub open spec fn group_of(c: (Seq<char>, Seq<Option<Seq<char>>>), k: int) -> Option<Seq<char>> {
    if 0 <= k < c.1.len() { c.1[k] } else { None }
}

/// The text of the whole match (group 0).
pub open spec fn whole_match(c: (Seq<char>, Seq<Option<Seq<char>>>)) -> Seq<char> {
    match group_of(c, 0) {
        Some(m) => m,
        None => Seq::empty(),
    }
}

/// The text of group `k` of a match, if the group exists and took part.
pub fn capture_group(c: &PatternCapture, k: usize) -> (r: Option<String>)
    ensures
        group_view(r) == group_of(capture_view(*c), k as int),
{
    if k < c.groups.len() {
        match &c.groups[k] {
            Some(text) => Some(text.clone()),
            None => None,
        }
    } else {
        None
    }
}

impl CompiledPattern {
    /// The pattern text.
    pub closed spec fn source(&self) -> Seq<char> {
        self.source@
    }
}

impl CompiledPatternSet {
    /// The pattern texts, in order.
    pub closed spec fn sources(&self) -> Seq<Seq<char>> {
        string_views(self.sources@)
    }
}

/// Compile a pattern with `regex::Regex::new`, which fails exactly on the patterns that
/// `regex_compiles` rejects.
#[verifier::external_body]
pub(crate) fn compile_pattern(source: &str) -> (r: Result<CompiledPattern, regex::Error>)
    ensures
        match r {
            Ok(p) => p.source() == source@ && regex_compiles(source@),
            Err(_) => !regex_compiles(source@),
        },
{
    regex::Regex::new(source).map(|regex| CompiledPattern { source: source.to_owned(), regex })
}

/// The message of a compilation error, through its `Display` impl. Nothing is stated
/// of the text: the error value is opaque here.
#[verifier::external_body]
pub(crate) fn error_message(e: &regex::Error) -> String {
    e.to_string()
}

/// Compile a list of patterns into one set with `regex::RegexSet::new`.
#[verifier::external_body]
pub(crate) fn compile_pattern_set(sources: &Vec<String>) -> (r: Result<CompiledPatternSet, regex::Error>)
    ensures
        match r {
            Ok(s) => s.sources() == string_views(sources@) && regex_set_compiles(string_views(sources@)),
            Err(_) => !regex_set_compiles(string_views(sources@)),
        },
{
    regex::RegexSet::new(sources.iter()).map(|set| CompiledPatternSet { sources: sources.clone(), set })
}

/// Whether some pattern of the set matches in `text`, through `regex::RegexSet::is_match`.
#[verifier::external_body]
pub(crate) fn pattern_set_matches(s: &CompiledPatternSet, text: &str) -> (r: bool)
    ensures
        r == regex_set_is_match(s.sources(), text@),
{
    s.set.is_match(text)
}

/// Whether the pattern matches somewhere in `text`, through `regex::Regex::is_match`.
#[verifier::external_body]
pub(crate) fn pattern_matches(p: &CompiledPattern, text: &str) -> (r: bool)
    ensures
        r == regex_is_match(p.source(), text@),
{
    p.regex.is_match(text)
}

/// Capture group `group` of the first match in `text`, through `regex::Regex::captures`
/// and `regex::Captures::get`.
#[verifier::external_body]
pub(crate) fn pattern_group(p: &CompiledPattern, text: &str, group: usize) -> (r: Option<String>)
    ensures
        group_view(r) == regex_group(p.source(), text@, group as nat),
{
    p.regex.captures(text).and_then(|c| c.get(group)).map(|m| m.as_str().to_owned())
}

/// Every match in `text`, in order, through `regex::Regex::captures_iter`. Group 0 of a
/// match, the whole match, is always present (`regex::Captures::get` documents it), and
/// the text before a match is a slice of `text` ending where the match starts.
#[verifier::external_body]
pub(crate) fn pattern_captures(p: &CompiledPattern, text: &str) -> (r: Vec<PatternCapture>)
    ensures
        capture_views(r@) == regex_captures(p.source(), text@),
        forall|i: int| #![trigger r@[i]] 0 <= i < r@.len()
            ==> r@[i].groups@.len() > 0 && r@[i].groups@[0] is Some && r@[i].before@.len() <= text@.len(),
{
    p.regex
        .captures_iter(text)
        .map(|c| PatternCapture {
            before: text[..c.get_match().start()].to_owned(),
            groups: c.iter().map(|g| g.map(|m| m.as_str().to_owned())).collect(),
        })
        .collect()
}

} // verus!

