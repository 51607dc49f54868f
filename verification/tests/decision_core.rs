use splitter::constraints::Constraint;
use splitter::evaluate::{evaluate_split_decision, EvaluationChecks, MissingRoute};
use splitter::gain::cull_gain_keeps;
use splitter::search::{child_bounds, records_candidate, BoundSource};

fn checks() -> EvaluationChecks {
    EvaluationChecks {
        left_empty: false,
        right_empty: false,
        left_below_min: false,
        right_below_min: false,
        missing_present: false,
        prefer_left: false,
        left_with_missing_below_min: false,
        right_with_missing_below_min: false,
    }
}

#[test]
fn cull_unconstrained_keeps_any_order() {
    assert!(cull_gain_keeps(Constraint::Unconstrained, false, false, false));
    assert!(cull_gain_keeps(Constraint::Unconstrained, false, true, false));
    assert!(cull_gain_keeps(Constraint::Unconstrained, false, false, true));
}

#[test]
fn cull_rejects_nan_gain() {
    assert!(!cull_gain_keeps(Constraint::Unconstrained, true, true, true));
    assert!(!cull_gain_keeps(Constraint::Positive, true, true, true));
    assert!(!cull_gain_keeps(Constraint::Negative, true, true, true));
}

#[test]
fn cull_positive_requires_left_at_most_right() {
    assert!(cull_gain_keeps(Constraint::Positive, false, true, false));
    assert!(!cull_gain_keeps(Constraint::Positive, false, false, true));
}

#[test]
fn cull_negative_requires_left_at_least_right() {
    assert!(cull_gain_keeps(Constraint::Negative, false, false, true));
    assert!(!cull_gain_keeps(Constraint::Negative, false, true, false));
}

#[test]
fn split_without_missing_mass_routes_right() {
    assert_eq!(evaluate_split_decision(true, checks()), Some(MissingRoute::Right));
    assert_eq!(evaluate_split_decision(false, checks()), Some(MissingRoute::Right));
}

#[test]
fn missing_mass_follows_the_larger_gain() {
    let mut c = checks();
    c.missing_present = true;
    c.prefer_left = true;
    assert_eq!(evaluate_split_decision(true, c), Some(MissingRoute::Left));
    c.prefer_left = false;
    assert_eq!(evaluate_split_decision(true, c), Some(MissingRoute::Right));
}

#[test]
fn empty_side_rejected_unless_missing_splits_allowed() {
    let mut c = checks();
    c.left_empty = true;
    assert_eq!(evaluate_split_decision(false, c), None);
    assert_eq!(evaluate_split_decision(true, c), Some(MissingRoute::Right));
    let mut c = checks();
    c.right_empty = true;
    assert_eq!(evaluate_split_decision(false, c), None);
    assert_eq!(evaluate_split_decision(true, c), Some(MissingRoute::Right));
}

#[test]
fn missing_only_column_rejected_when_disallowed() {
    let mut c = checks();
    c.left_empty = true;
    c.right_empty = true;
    c.missing_present = true;
    assert_eq!(evaluate_split_decision(false, c), None);
}

#[test]
fn leaf_minimum_checked_before_routing_when_disallowed() {
    let mut c = checks();
    c.left_below_min = true;
    assert_eq!(evaluate_split_decision(false, c), None);
    let mut c = checks();
    c.right_below_min = true;
    assert_eq!(evaluate_split_decision(false, c), None);
}

#[test]
fn leaf_minimum_checked_after_routing_in_any_configuration() {
    let mut c = checks();
    c.left_below_min = true;
    assert_eq!(evaluate_split_decision(true, c), None);
    let mut c = checks();
    c.missing_present = true;
    c.prefer_left = true;
    c.left_with_missing_below_min = true;
    assert_eq!(evaluate_split_decision(true, c), None);
    let mut c = checks();
    c.missing_present = true;
    c.right_with_missing_below_min = true;
    assert_eq!(evaluate_split_decision(true, c), None);
}

#[test]
fn routing_missing_left_can_rescue_a_small_left_leaf() {
    let mut c = checks();
    c.left_below_min = true;
    c.missing_present = true;
    c.prefer_left = true;
    assert_eq!(evaluate_split_decision(true, c), Some(MissingRoute::Left));
}

#[test]
fn decision_is_deterministic() {
    let mut c = checks();
    c.missing_present = true;
    c.prefer_left = true;
    assert_eq!(evaluate_split_decision(true, c), evaluate_split_decision(true, c));
    assert_eq!(evaluate_split_decision(false, c), evaluate_split_decision(false, c));
}

#[test]
fn candidate_recorded_only_with_positive_gain() {
    assert!(records_candidate(false, false, false));
    assert!(records_candidate(false, true, true));
    assert!(!records_candidate(false, true, false));
    assert!(!records_candidate(true, false, false));
    assert!(!records_candidate(true, true, true));
}

#[test]
fn unconstrained_children_inherit_the_parent_interval() {
    let p = child_bounds(Constraint::Unconstrained);
    assert_eq!(p.left_lower, BoundSource::ParentLower);
    assert_eq!(p.left_upper, BoundSource::ParentUpper);
    assert_eq!(p.right_lower, BoundSource::ParentLower);
    assert_eq!(p.right_upper, BoundSource::ParentUpper);
}

#[test]
fn negative_constraint_splits_the_interval_at_the_midpoint() {
    let p = child_bounds(Constraint::Negative);
    assert_eq!(p.left_lower, BoundSource::Midpoint);
    assert_eq!(p.left_upper, BoundSource::ParentUpper);
    assert_eq!(p.right_lower, BoundSource::ParentLower);
    assert_eq!(p.right_upper, BoundSource::Midpoint);
}

#[test]
fn positive_constraint_splits_the_interval_at_the_midpoint() {
    let p = child_bounds(Constraint::Positive);
    assert_eq!(p.left_lower, BoundSource::ParentLower);
    assert_eq!(p.left_upper, BoundSource::Midpoint);
    assert_eq!(p.right_lower, BoundSource::Midpoint);
    assert_eq!(p.right_upper, BoundSource::ParentUpper);
}
