use std::collections::HashMap;
use vstd::prelude::*;

verus! {

broadcast use vstd::std_specs::hash::group_hash_axioms;

/// Monotonic-direction requirement on the leaf weights along one feature.
///
/// `Positive` demands that a split's left child weight not exceed its right
/// child weight (the learned function is non-decreasing in the feature);
/// `Negative` demands the reverse (non-increasing).
#[derive(Clone, Copy, Debug, PartialEq, Eq)]
pub enum Constraint {
    Unconstrained,
    Positive,
    Negative,
}

/// The constraint under which a feature is searched: features absent from
/// the constraint map are unconstrained.
pub open spec fn effective_constraint(m: Map<usize, Constraint>, feature: usize) -> Constraint {
    if m.contains_key(feature) {
        m[feature]
    } else {
        Constraint::Unconstrained
    }
}

/// Per-feature lookup of monotonic constraints, keyed by feature index.
pub struct ConstraintMap {
    entries: HashMap<usize, Constraint>,
}

impl View for ConstraintMap {
    type V = Map<usize, Constraint>;

    closed spec fn view(&self) -> Map<usize, Constraint> {
        self.entries@
    }
}

impl ConstraintMap {
    /// An empty map: every feature is unconstrained.
    pub fn new() -> (r: Self)
        ensures
            r@ == Map::<usize, Constraint>::empty(),
    {
        ConstraintMap { entries: HashMap::new() }
    }

    /// Attaches `constraint` to `feature`, replacing any earlier entry.
    pub fn insert(&mut self, feature: usize, constraint: Constraint)
        ensures
            final(self)@ == old(self)@.insert(feature, constraint),
    {
        self.entries.insert(feature, constraint);
    }

    /// The constraint attached to `feature`, if one was inserted.
    pub fn get(&self, feature: usize) -> (r: Option<&Constraint>)
        ensures
            match r {
                Some(c) => self@.contains_key(feature) && *c == self@[feature],
                None => !self@.contains_key(feature),
            },
    {
        self.entries.get(&feature)
    }

    /// The constraint under which `feature` is searched; a feature without
    /// an entry is unconstrained.
    pub fn effective(&self, feature: usize) -> (c: Constraint)
        ensures
            c == effective_constraint(self@, feature),
    {
        match self.entries.get(&feature) {
            Some(c) => *c,
            None => Constraint::Unconstrained,
        }
    }
}

} // verus!
