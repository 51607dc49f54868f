//! Decision core of a gradient-boosted-tree split finder.
//!
//! A split finder scans per-feature histograms of gradient/hessian sums and
//! picks the gain-maximizing split for a tree node. The gradient, hessian and
//! gain arithmetic is floating point and is carried out by the caller; this
//! crate owns and verifies everything the finder *decides* on top of that
//! arithmetic: the per-feature monotonic-constraint model, the gain corrector
//! that enforces those constraints, the accept/reject and missing-value
//! routing policy of the split evaluator, the rule for recording a candidate
//! during the scan, the assignment of weight-bound intervals to the two
//! children, and the exact mathematics behind the Newton leaf weight.

pub mod constraints;
pub mod evaluate;
pub mod gain;
pub mod search;
