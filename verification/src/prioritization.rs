//! The integer rules of gap prioritization: development phases, the limits a scoring
//! configuration must respect, how recently a gap is taken to have been found, and what
//! a gap's file and item add to its context score. Scores are in tenths of a point.

use vstd::prelude::*;
use crate::gap_analyzer::{metadata_get, DetectedGap};
use crate::impact_assessor::{file_location, file_location_of, usage_location_tenths, FileLocation};
use crate::text::str_equal;

verus! {

/// Development phase affecting priority scoring.
#[derive(Debug, Clone, Copy, PartialEq, Eq, Structural)]
pub enum DevelopmentPhase {
    Prototyping,
    Development,
    Testing,
    PreProduction,
    Production,
}

/// The complaint about a scoring configuration's limits, if it has one: a batch size of
/// zero first, then a scoring time of zero.
pub open spec fn scoring_limits_error(max_batch_size: usize, max_scoring_time_ms: u64) -> Option<Seq<char>> {
    if max_batch_size == 0 {
        Some("max_batch_size must be greater than 0"@)
    } else if max_scoring_time_ms == 0 {
        Some("max_scoring_time_ms must be greater than 0"@)
    } else {
        None
    }
}

/// Checks the batch size and time limits of a prioritization configuration.
pub fn check_scoring_limits(max_batch_size: usize, max_scoring_time_ms: u64) -> (r: Result<(), String>)
    ensures
        match scoring_limits_error(max_batch_size, max_scoring_time_ms) {
            None => r is Ok,
            Some(m) => r matches Err(e) && e@ == m,
        },
{
    if max_batch_size == 0 {
        Err("max_batch_size must be greater than 0".to_owned())
    } else if max_scoring_time_ms == 0 {
        Err("max_scoring_time_ms must be greater than 0".to_owned())
    } else {
        Ok(())
    }
}

/// How recently a gap of a priority is taken to have been found, in tenths: the higher
/// the priority, the more recent.
pub open spec fn recency_tenths_of(priority: u8) -> int {
    if 9 <= priority <= 10 {
        10
    } else if 7 <= priority <= 8 {
        8
    } else if 5 <= priority <= 6 {
        6
    } else if 3 <= priority <= 4 {
        4
    } else {
        2
    }
}

/// The recency factor of a gap's priority, in tenths.
pub fn recency_factor_tenths(priority: u8) -> (t: u32)
    ensures
        t == recency_tenths_of(priority),
{
    if 9 <= priority && priority <= 10 {
        10
    } else if 7 <= priority && priority <= 8 {
        8
    } else if 5 <= priority && priority <= 6 {
        6
    } else if 3 <= priority && priority <= 4 {
        4
    } else {
        2
    }
}

/// A higher priority is never taken as less recent, up to the top of the scale.
pub proof fn lemma_recency_monotone(p: u8, q: u8)
    requires
        p <= q <= 10,
    ensures
        recency_tenths_of(p) <= recency_tenths_of(q),
{
}

/// What a gap's file location adds to its context score: core files (the library root
/// or a `main.rs`) most, other source files less, tests least.
pub fn context_location_tenths(path: &str) -> (t: u32)
    ensures
        t == usage_location_tenths(file_location_of(path@)),
{
    match file_location(path) {
        FileLocation::LibraryRoot | FileLocation::MainFile => 20,
        FileLocation::Source => 10,
        FileLocation::Tests => 5,
        FileLocation::Other => 0,
    }
}

/// What the kind of item a gap is about adds to its context score.
pub open spec fn item_type_tenths_of(item_type: Option<Seq<char>>) -> int {
    match item_type {
        Some(t) => if t == "function"@ {
            10
        } else if t == "struct"@ {
            15
        } else if t == "module"@ {
            20
        } else {
            0
        },
        None => 0,
    }
}

/// The context bonus of the `item_type` a gap's metadata names.
pub fn item_type_tenths(gap: &DetectedGap) -> (t: u32)
    ensures
        t == item_type_tenths_of(metadata_get(gap@.metadata, "item_type"@)),
{
    match gap.get_metadata("item_type") {
        Some(t) => if str_equal(t.as_str(), "function") {
            10
        } else if str_equal(t.as_str(), "struct") {
            15
        } else if str_equal(t.as_str(), "module") {
            20
        } else {
            0
        },
        None => 0,
    }
}

} // verus!
