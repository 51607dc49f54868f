use crate::constraints::Constraint;
use vstd::prelude::*;

verus! {

/// Whether the monotonicity-enforcing gain corrector keeps a candidate gain.
///
/// The corrector zeroes a gain (rejecting the candidate) when the gain is NaN
/// or when the two child weights violate the required order: a `Positive`
/// constraint requires the left weight to be at most the right weight, a
/// `Negative` constraint the reverse. `left_le_right` and `left_ge_right`
/// are the outcomes of those two comparisons as the caller observed them on
/// its floating-point weights.
pub open spec fn spec_cull_keeps(
    constraint: Constraint,
    gain_is_nan: bool,
    left_le_right: bool,
    left_ge_right: bool,
) -> bool {
    !gain_is_nan && match constraint {
        Constraint::Unconstrained => true,
        Constraint::Positive => left_le_right,
        Constraint::Negative => left_ge_right,
    }
}

/// Decides whether the gain corrector passes a candidate gain through
/// (`true`) or zeroes it out (`false`). Every gain the split search compares
/// or records must pass this decision first.
pub fn cull_gain_keeps(
    constraint: Constraint,
    gain_is_nan: bool,
    left_le_right: bool,
    left_ge_right: bool,
) -> (keep: bool)
    ensures
        keep == spec_cull_keeps(constraint, gain_is_nan, left_le_right, left_ge_right),
{
    if gain_is_nan {
        false
    } else {
        match constraint {
            Constraint::Unconstrained => true,
            Constraint::Positive => left_le_right,
            Constraint::Negative => left_ge_right,
        }
    }
}

/// A gain kept by the corrector certifies the constraint's weight order: a
/// surviving candidate under `Positive` has left weight at most right weight,
/// under `Negative` at least right weight, and its gain is never NaN.
pub proof fn lemma_cull_respects_constraint(
    constraint: Constraint,
    gain_is_nan: bool,
    left_le_right: bool,
    left_ge_right: bool,
)
    ensures
        spec_cull_keeps(constraint, gain_is_nan, left_le_right, left_ge_right)
            && constraint == Constraint::Positive ==> left_le_right,
        spec_cull_keeps(constraint, gain_is_nan, left_le_right, left_ge_right)
            && constraint == Constraint::Negative ==> left_ge_right,
        spec_cull_keeps(constraint, gain_is_nan, left_le_right, left_ge_right) ==> !gain_is_nan,
{
}

/// The loss reduction (gain) of a leaf that is assigned the weight `wn / wd`,
/// for gradient sum `g` and ridge-adjusted hessian sum `h`, scaled by the
/// positive factor `2 * wd * wd`:
///
/// the gain of weight `w` is `-(2*g*w + h*w*w) / 2`, so multiplying it by
/// `2 * wd * wd` gives this integer whenever `w == wn / wd` exactly.
pub open spec fn scaled_gain(g: int, h: int, wn: int, wd: int) -> int {
    -(2 * g * wn * wd + h * wn * wn)
}

/// At the Newton leaf weight `-g / h` the scaled gain is `g * g * h`: the
/// gain itself is `g*g*h / (2*h*h) == g*g / (2*h)`, the unconstrained
/// maximum loss reduction for the leaf.
pub proof fn lemma_newton_gain_value(g: int, h: int)
    ensures
        scaled_gain(g, h, -g, h) == g * g * h,
{
    assert(-(2 * g * (-g) * h + h * (-g) * (-g)) == g * g * h) by (nonlinear_arith);
}

/// The Newton leaf weight `-g / h` maximizes the gain: for any other weight
/// `wn / wd` the gain is no larger. Both sides of the conclusion carry the
/// same positive scaling `2 * h * h * wd * wd` of the two gains, so the
/// inequality between the integers is the inequality between the gains.
pub proof fn lemma_newton_weight_maximizes_gain(g: int, h: int, wn: int, wd: int)
    requires
        h > 0,
        wd != 0,
    ensures
        scaled_gain(g, h, -g, h) * (wd * wd) >= scaled_gain(g, h, wn, wd) * (h * h),
{
    lemma_newton_gain_value(g, h);
    let s: int = g * wd;
    let t: int = h * wn;
    let d: int = s + t;
    assert(h * (d * d) == h * (s * s) + 2 * (h * (s * t)) + h * (t * t)) by (nonlinear_arith)
        requires
            d == s + t,
    ;
    assert(h * (s * s) == (g * g * h) * (wd * wd)) by (nonlinear_arith)
        requires
            s == g * wd,
    ;
    assert(h * (s * t) == (g * wn * wd) * (h * h)) by (nonlinear_arith)
        requires
            s == g * wd,
            t == h * wn,
    ;
    assert(h * (t * t) == (h * wn * wn) * (h * h)) by (nonlinear_arith)
        requires
            t == h * wn,
    ;
    assert((-(2 * g * wn * wd + h * wn * wn)) * (h * h) == -(2 * ((g * wn * wd) * (h * h))) - (h
        * wn * wn) * (h * h)) by (nonlinear_arith);
    assert(h * (d * d) >= 0) by (nonlinear_arith)
        requires
            h > 0,
    ;
}

} // verus!
