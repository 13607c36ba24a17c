//! A wrapper that pairs a system with its cached classification.

use crate::analysis::Antifragile;
use crate::analysis::TriadAnalysis;
use crate::analysis::classify_spec;
use crate::analysis::probe_domain;
use crate::triad::Triad;
use vstd::prelude::*;

verus! {

/// An immutable pairing of a system with a classification computed for it.
/// It is created only by [`Verified::check`], which runs the probe once, and
/// changed only by [`Verified::re_verify`], which runs it again.
#[must_use]
pub struct Verified<T> {
    inner: T,
    classification: Triad,
}

impl<T> Verified<T> {
    /// The wrapped system.
    pub closed spec fn inner_spec(self) -> T {
        self.inner
    }

    /// The stored classification.
    pub closed spec fn classification_spec(self) -> Triad {
        self.classification
    }
}

impl<T: Antifragile> Verified<T> {
    /// Classifies the system at `(at, delta)` and stores the result beside
    /// the system.
    pub fn check(system: T, at: i64, delta: i64) -> (v: Self)
        requires
            probe_domain(system, at as int, delta as int),
        ensures
            v.inner_spec() == system,
            v.classification_spec() == classify_spec(system, at as int, delta as int),
    {
        let classification = system.classify(at, delta);
        Verified { inner: system, classification }
    }

    /// The stored classification, without recomputation.
    pub fn classification(&self) -> (t: Triad)
        ensures
            t == self.classification_spec(),
    {
        self.classification
    }

    /// A reference to the wrapped system.
    pub fn inner(&self) -> (r: &T)
        ensures
            *r == self.inner_spec(),
    {
        &self.inner
    }

    /// Unwraps the system, releasing it from the pairing.
    pub fn into_inner(self) -> (r: T)
        ensures
            r == self.inner_spec(),
    {
        self.inner
    }

    /// Whether the stored classification is `Antifragile`.
    pub fn is_antifragile(&self) -> (r: bool)
        ensures
            r == (self.classification_spec() == Triad::Antifragile),
    {
        self.classification.is_antifragile()
    }

    /// Whether the stored classification is `Fragile`.
    pub fn is_fragile(&self) -> (r: bool)
        ensures
            r == (self.classification_spec() == Triad::Fragile),
    {
        self.classification.is_fragile()
    }

    /// Whether the stored classification is `Robust`.
    pub fn is_robust(&self) -> (r: bool)
        ensures
            r == (self.classification_spec() == Triad::Robust),
    {
        self.classification.is_robust()
    }

    /// Replaces the stored classification with a fresh evaluation at
    /// `(at, delta)`; the system itself is untouched.
    pub fn re_verify(&mut self, at: i64, delta: i64)
        requires
            probe_domain(old(self).inner_spec(), at as int, delta as int),
        ensures
            final(self).inner_spec() == old(self).inner_spec(),
            final(self).classification_spec() == classify_spec(
                old(self).inner_spec(),
                at as int,
                delta as int,
            ),
    {
        let classification = self.inner.classify(at, delta);
        self.classification = classification;
    }

    /// Whether classifying at `(at, delta)` agrees with the stored
    /// classification; nothing is mutated, so drift is detected without
    /// being committed.
    pub fn still_holds(&self, at: i64, delta: i64) -> (r: bool)
        requires
            probe_domain(self.inner_spec(), at as int, delta as int),
        ensures
            r == (classify_spec(self.inner_spec(), at as int, delta as int)
                == self.classification_spec()),
    {
        let fresh = self.inner.classify(at, delta);
        fresh == self.classification
    }
}

} // verus!
