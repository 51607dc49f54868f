use crate::constraints::Constraint;
use vstd::prelude::*;

verus! {

/// Whether the scan records a surviving candidate as the best one seen so far
/// for the feature.
///
/// `gain_le_zero` is the caller's comparison of the corrected split gain
/// against zero, `has_best` says whether an earlier bin already produced a
/// candidate, and `beats_best` is the caller's strict comparison of this
/// candidate's gain against that earlier best. A non-positive gain is never
/// recorded; ties keep the earlier bin.
pub open spec fn spec_records_candidate(
    gain_le_zero: bool,
    has_best: bool,
    beats_best: bool,
) -> bool {
    !gain_le_zero && (!has_best || beats_best)
}

/// Decides whether a candidate replaces the best split recorded so far.
pub fn records_candidate(gain_le_zero: bool, has_best: bool, beats_best: bool) -> (r: bool)
    ensures
        r == spec_records_candidate(gain_le_zero, has_best, beats_best),
{
    if gain_le_zero {
        false
    } else {
        !has_best || beats_best
    }
}

/// A candidate is recorded only when its corrected split gain cleared the
/// positivity check, and never past a strictly better earlier candidate.
pub proof fn lemma_recorded_candidate_is_sound(gain_le_zero: bool, has_best: bool, beats_best: bool)
    ensures
        spec_records_candidate(gain_le_zero, has_best, beats_best) ==> !gain_le_zero,
        spec_records_candidate(gain_le_zero, has_best, beats_best) && has_best ==> beats_best,
{
}

/// One endpoint of a child's permissible leaf-weight interval: the parent's
/// own endpoint, or the midpoint of the two child weights.
#[derive(Clone, Copy, Debug, PartialEq, Eq)]
pub enum BoundSource {
    ParentLower,
    ParentUpper,
    Midpoint,
}

/// Where each endpoint of the two children's weight intervals comes from when
/// a split is recorded.
#[derive(Clone, Copy, Debug, PartialEq, Eq)]
pub struct ChildBoundsPlan {
    pub left_lower: BoundSource,
    pub left_upper: BoundSource,
    pub right_lower: BoundSource,
    pub right_upper: BoundSource,
}

/// The interval assignment per constraint: an unconstrained split passes the
/// parent's interval unchanged to both children; under a `Negative`
/// constraint the left child gets `[mid, upper]` and the right `[lower, mid]`;
/// under `Positive` the left child gets `[lower, mid]` and the right
/// `[mid, upper]`, where `mid` is the midpoint of the two child weights.
pub open spec fn spec_child_bounds(constraint: Constraint) -> ChildBoundsPlan {
    match constraint {
        Constraint::Unconstrained => ChildBoundsPlan {
            left_lower: BoundSource::ParentLower,
            left_upper: BoundSource::ParentUpper,
            right_lower: BoundSource::ParentLower,
            right_upper: BoundSource::ParentUpper,
        },
        Constraint::Negative => ChildBoundsPlan {
            left_lower: BoundSource::Midpoint,
            left_upper: BoundSource::ParentUpper,
            right_lower: BoundSource::ParentLower,
            right_upper: BoundSource::Midpoint,
        },
        Constraint::Positive => ChildBoundsPlan {
            left_lower: BoundSource::ParentLower,
            left_upper: BoundSource::Midpoint,
            right_lower: BoundSource::Midpoint,
            right_upper: BoundSource::ParentUpper,
        },
    }
}

/// Assigns the weight-bound intervals the two children of a recorded split
/// must respect if they are split further.
pub fn child_bounds(constraint: Constraint) -> (p: ChildBoundsPlan)
    ensures
        p == spec_child_bounds(constraint),
{
    match constraint {
        Constraint::Unconstrained => ChildBoundsPlan {
            left_lower: BoundSource::ParentLower,
            left_upper: BoundSource::ParentUpper,
            right_lower: BoundSource::ParentLower,
            right_upper: BoundSource::ParentUpper,
        },
        Constraint::Negative => ChildBoundsPlan {
            left_lower: BoundSource::Midpoint,
            left_upper: BoundSource::ParentUpper,
            right_lower: BoundSource::ParentLower,
            right_upper: BoundSource::Midpoint,
        },
        Constraint::Positive => ChildBoundsPlan {
            left_lower: BoundSource::ParentLower,
            left_upper: BoundSource::Midpoint,
            right_lower: BoundSource::Midpoint,
            right_upper: BoundSource::ParentUpper,
        },
    }
}

} // verus!
