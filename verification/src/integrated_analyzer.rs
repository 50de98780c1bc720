//! Gaps as the integrated analysis hands them out: a detected gap with what semantic
//! validation, where it ran, added to it.

use vstd::prelude::*;
use crate::gap_analyzer::DetectedGap;

verus! {

/// A detected gap with optional semantic analysis information.
#[derive(Debug, Clone)]
pub struct EnhancedGap {
    /// The detected gap
    pub gap: DetectedGap,
    /// Whether semantic analysis validated the gap
    pub is_validated: Option<bool>,
    /// Validation confidence from semantic analysis, in percent
    pub validation_confidence_percent: Option<u8>,
    /// Priority raised or lowered by semantic analysis
    pub enhanced_priority: Option<u8>,
    /// Number of related documents found
    pub related_documents_count: usize,
    /// Whether this gap has semantic enhancement
    pub has_semantic_enhancement: bool,
}

impl EnhancedGap {
    /// A gap that no semantic analysis looked at.
    pub fn from_detected(gap: DetectedGap) -> (e: EnhancedGap)
        ensures
            e.gap@ == gap@,
            e.is_validated is None,
            e.validation_confidence_percent is None,
            e.enhanced_priority is None,
            e.related_documents_count == 0,
            !e.has_semantic_enhancement,
    {
        EnhancedGap {
            gap,
            is_validated: None,
            validation_confidence_percent: None,
            enhanced_priority: None,
            related_documents_count: 0,
            has_semantic_enhancement: false,
        }
    }

    /// The effective priority: the enhanced one where semantic analysis gave one, else
    /// the gap's own.
    pub fn effective_priority(&self) -> (p: u8)
        ensures
            p == match self.enhanced_priority {
                Some(q) => q,
                None => self.gap.priority,
            },
    {
        match self.enhanced_priority {
            Some(q) => q,
            None => self.gap.priority,
        }
    }

    /// Whether the gap should be acted upon: when it was validated, or when no semantic
    /// analysis judged it.
    pub fn should_act_upon(&self) -> (r: bool)
        ensures
            r == match self.is_validated {
                Some(v) => v,
                None => true,
            },
    {
        match self.is_validated {
            Some(v) => v,
            None => true,
        }
    }
}

/// Whether a file's gaps go on to semantic analysis: only where it is enabled, a
/// semantic analyzer is at hand, and at least `min_gaps_for_semantic` gaps were found.
pub fn should_perform_semantic_analysis(
    enable_semantic_analysis: bool,
    semantic_analyzer_available: bool,
    gap_count: usize,
    min_gaps_for_semantic: usize,
) -> (r: bool)
    ensures
        r == (enable_semantic_analysis && semantic_analyzer_available && gap_count >= min_gaps_for_semantic),
{
    enable_semantic_analysis && semantic_analyzer_available && gap_count >= min_gaps_for_semantic
}

/// Gaps handed out without semantic analysis, in the order they were detected.
pub fn enhanced_gaps_without_semantics(gaps: Vec<DetectedGap>) -> (r: Vec<EnhancedGap>)
    ensures
        r@.len() == gaps@.len(),
        forall|i: int| 0 <= i < gaps@.len() ==> {
            &&& (#[trigger] r@[i]).gap@ == gaps@[i]@
            &&& r@[i].is_validated is None
            &&& r@[i].enhanced_priority is None
            &&& !r@[i].has_semantic_enhancement
            &&& r@[i].related_documents_count == 0
        },
{
    let ghost all = gaps@;
    let mut rest = gaps;
    let mut r: Vec<EnhancedGap> = Vec::new();
    while rest.len() > 0
        invariant
            r@.len() + rest@.len() == all.len(),
            rest@ == all.skip(r@.len() as int),
            forall|k: int| 0 <= k < r@.len() ==> {
                &&& (#[trigger] r@[k]).gap@ == all[k]@
                &&& r@[k].is_validated is None
                &&& r@[k].enhanced_priority is None
                &&& !r@[k].has_semantic_enhancement
                &&& r@[k].related_documents_count == 0
            },
        decreases rest@.len(),
    {
        let ghost n = r@.len();
        let g = rest.remove(0);
        assert(g == all[n as int]);
        assert(rest@ =~= all.skip(n as int + 1));
        r.push(EnhancedGap::from_detected(g));
    }
    r
}

} // verus!
