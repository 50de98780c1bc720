use fortitude::gap_analyzer::{DetectedGap, GapType};
use fortitude::integrated_analyzer::{enhanced_gaps_without_semantics, should_perform_semantic_analysis, EnhancedGap};

fn todo_gap() -> DetectedGap {
    DetectedGap::new(GapType::TodoComment, "test.rs".to_string(), 1, "// TODO: test".to_string(), "test".to_string(), 90)
}

#[test]
fn test_enhanced_gap_effective_priority() {
    let original_gap = todo_gap();

    let basic_gap = EnhancedGap {
        gap: original_gap.clone(),
        is_validated: None,
        validation_confidence_percent: None,
        enhanced_priority: None,
        related_documents_count: 0,
        has_semantic_enhancement: false,
    };
    assert_eq!(basic_gap.effective_priority(), original_gap.priority);
    assert!(basic_gap.should_act_upon());

    let enhanced_gap = EnhancedGap {
        gap: original_gap.clone(),
        is_validated: Some(true),
        validation_confidence_percent: Some(90),
        enhanced_priority: Some(9),
        related_documents_count: 2,
        has_semantic_enhancement: true,
    };
    assert_eq!(enhanced_gap.effective_priority(), 9);
    assert!(enhanced_gap.should_act_upon());

    let invalidated_gap = EnhancedGap {
        gap: original_gap,
        is_validated: Some(false),
        validation_confidence_percent: Some(30),
        enhanced_priority: Some(5),
        related_documents_count: 1,
        has_semantic_enhancement: true,
    };
    assert!(!invalidated_gap.should_act_upon());
}

#[test]
fn gaps_without_semantic_analysis_keep_their_order() {
    let second = DetectedGap::new(
        GapType::MissingDocumentation,
        "test.rs".to_string(),
        2,
        "pub fn test()".to_string(),
        "missing docs".to_string(),
        80,
    );
    let enhanced = enhanced_gaps_without_semantics(vec![todo_gap(), second]);
    assert_eq!(enhanced.len(), 2);
    assert_eq!(enhanced[0].gap.line_number, 1);
    assert_eq!(enhanced[1].gap.line_number, 2);
    assert_eq!(enhanced[0].effective_priority(), 7);
    assert_eq!(enhanced[1].effective_priority(), 6);
    assert!(enhanced.iter().all(|g| g.should_act_upon() && !g.has_semantic_enhancement));
    assert!(enhanced_gaps_without_semantics(Vec::new()).is_empty());
}

#[test]
fn test_should_perform_semantic_analysis() {
    // Enabled with a minimum of two gaps, but no semantic analyzer at hand.
    let few_gaps = vec![todo_gap()];
    assert!(!should_perform_semantic_analysis(true, false, few_gaps.len(), 2));
    let many_gaps = vec![todo_gap(), todo_gap()];
    assert!(!should_perform_semantic_analysis(true, false, many_gaps.len(), 2));
}

#[test]
fn semantic_analysis_needs_all_three_conditions() {
    assert!(should_perform_semantic_analysis(true, true, 2, 2));
    assert!(should_perform_semantic_analysis(true, true, 5, 1));
    assert!(!should_perform_semantic_analysis(true, true, 1, 2));
    assert!(!should_perform_semantic_analysis(false, true, 3, 1));
    assert!(!should_perform_semantic_analysis(true, false, 3, 1));
    assert!(should_perform_semantic_analysis(true, true, 0, 0));
}
