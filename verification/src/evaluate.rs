use vstd::prelude::*;

verus! {

/// Where the rows with a missing value for the split feature are routed.
///
/// The evaluator only ever routes them into the left or the right child; a
/// third policy (giving them a branch of their own) exists in the data model
/// of the surrounding trainer but is never produced here.
#[derive(Clone, Copy, Debug, PartialEq, Eq)]
pub enum MissingRoute {
    Left,
    Right,
}

/// The outcomes of the threshold comparisons the split evaluator makes on one
/// candidate split's aggregated statistics.
///
/// The gradient, hessian and gain sums are floating point and stay with the
/// caller; each field here records one comparison of those sums as the caller
/// observed it. The rejection and missing-value routing policy applied to
/// these outcomes is decided by [`evaluate_split_decision`].
#[derive(Clone, Copy, Debug, PartialEq, Eq)]
pub struct EvaluationChecks {
    /// The left side carries zero gradient and zero hessian mass.
    pub left_empty: bool,
    /// The right side carries zero gradient and zero hessian mass.
    pub right_empty: bool,
    /// The left hessian sum is below the minimum leaf weight.
    pub left_below_min: bool,
    /// The right hessian sum is below the minimum leaf weight.
    pub right_below_min: bool,
    /// The missing bin carries nonzero gradient or hessian mass.
    pub missing_present: bool,
    /// Routing the missing mass left yields the larger incremental gain.
    pub prefer_left: bool,
    /// The left hessian sum plus the missing hessian sum is below the
    /// minimum leaf weight.
    pub left_with_missing_below_min: bool,
    /// The right hessian sum plus the missing hessian sum is below the
    /// minimum leaf weight.
    pub right_with_missing_below_min: bool,
}

/// The direction the missing mass takes: left only when there is missing mass
/// and routing it left wins the gain comparison; right otherwise (right is
/// also the recorded default when the missing bin is empty).
pub open spec fn spec_missing_route(checks: EvaluationChecks) -> MissingRoute {
    if checks.missing_present && checks.prefer_left {
        MissingRoute::Left
    } else {
        MissingRoute::Right
    }
}

/// Whether the left side's final hessian sum (after any missing mass it
/// received) is below the minimum leaf weight.
pub open spec fn spec_final_left_below_min(checks: EvaluationChecks) -> bool {
    if checks.missing_present && checks.prefer_left {
        checks.left_with_missing_below_min
    } else {
        checks.left_below_min
    }
}

/// Whether the right side's final hessian sum (after any missing mass it
/// received) is below the minimum leaf weight.
pub open spec fn spec_final_right_below_min(checks: EvaluationChecks) -> bool {
    if checks.missing_present && !checks.prefer_left {
        checks.right_with_missing_below_min
    } else {
        checks.right_below_min
    }
}

/// The split evaluator's verdict on one candidate: `None` rejects it, `Some`
/// accepts it and fixes the missing-value routing.
///
/// A candidate is rejected when missing-only splits are disallowed and one
/// side is empty, when missing-only splits are disallowed and one side's
/// hessian sum is below the minimum leaf weight before routing, or when a
/// side's final hessian sum is below the minimum leaf weight after routing
/// (the last check applies regardless of `allow_missing_splits`).
pub open spec fn spec_evaluate_split_decision(
    allow_missing_splits: bool,
    checks: EvaluationChecks,
) -> Option<MissingRoute> {
    if (checks.left_empty || checks.right_empty) && !allow_missing_splits {
        None
    } else if !allow_missing_splits && (checks.right_below_min || checks.left_below_min) {
        None
    } else if spec_final_right_below_min(checks) || spec_final_left_below_min(checks) {
        None
    } else {
        Some(spec_missing_route(checks))
    }
}

/// Decides whether a candidate split is accepted and, if so, which way its
/// missing mass is routed.
pub fn evaluate_split_decision(allow_missing_splits: bool, checks: EvaluationChecks) -> (r: Option<
    MissingRoute,
>)
    ensures
        r == spec_evaluate_split_decision(allow_missing_splits, checks),
{
    if (checks.left_empty || checks.right_empty) && !allow_missing_splits {
        return None;
    }
    if !allow_missing_splits && (checks.right_below_min || checks.left_below_min) {
        return None;
    }
    let route = if checks.missing_present && checks.prefer_left {
        MissingRoute::Left
    } else {
        MissingRoute::Right
    };
    let final_left_below = if checks.missing_present && checks.prefer_left {
        checks.left_with_missing_below_min
    } else {
        checks.left_below_min
    };
    let final_right_below = if checks.missing_present && !checks.prefer_left {
        checks.right_with_missing_below_min
    } else {
        checks.right_below_min
    };
    if final_right_below || final_left_below {
        return None;
    }
    Some(route)
}

/// A split with an empty side is effectively a missing-only split: it is
/// always rejected when missing-only splits are disallowed.
pub proof fn lemma_empty_side_rejected_without_permission(checks: EvaluationChecks)
    requires
        checks.left_empty || checks.right_empty,
    ensures
        spec_evaluate_split_decision(false, checks) is None,
{
}

/// An accepted split meets the minimum leaf weight on both final sides, and
/// its missing mass is routed left only when that routing won the gain
/// comparison.
pub proof fn lemma_accepted_split_is_sound(allow_missing_splits: bool, checks: EvaluationChecks)
    ensures
        spec_evaluate_split_decision(allow_missing_splits, checks) is Some ==> !spec_final_left_below_min(checks)
            && !spec_final_right_below_min(checks),
        spec_evaluate_split_decision(allow_missing_splits, checks) == Some(MissingRoute::Left)
            ==> checks.missing_present && checks.prefer_left,
{
}

} // verus!
