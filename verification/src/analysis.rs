//! The convexity probe: payoff systems and their classification.

use crate::triad::Triad;
use vstd::prelude::*;

verus! {

/// Largest payoff magnitude a system may report. The probe adds two payoffs
/// and doubles a third; confining each one to this range keeps every such
/// sum, and every difference of two such sums, within `i64`.
pub const PAYOFF_LIMIT: i64 = 0x1000_0000_0000_0000;

/// A system that can be analyzed for fragility: it exposes a payoff (the
/// outcome it produces) as a function of a stress value.
pub trait Antifragile: Sized {
    /// The stress values at which the payoff is defined.
    spec fn in_domain(&self, x: int) -> bool;

    /// The payoff at a stress value, as a mathematical function.
    spec fn payoff_spec(&self, x: int) -> int;

    /// The payoff function: what outcome the system produces under the given
    /// stress. Deterministic, and confined to `PAYOFF_LIMIT` in magnitude.
    fn payoff(&self, stressor: i64) -> (r: i64)
        requires
            self.in_domain(stressor as int),
        ensures
            r as int == self.payoff_spec(stressor as int),
            -PAYOFF_LIMIT <= r as int <= PAYOFF_LIMIT,
    ;

    /// The payoff added to itself, used by the probe as the linear reference
    /// value `2 * payoff(at)`. Override it if the payoff type of a system
    /// has a cheaper doubling path; the result must stay the double.
    fn twin(r: i64) -> (d: i64)
        requires
            -PAYOFF_LIMIT <= r as int <= PAYOFF_LIMIT,
        ensures
            d as int == 2 * r as int,
    {
        r + r
    }
}

/// The probe's sampled sum `payoff(at + delta) + payoff(at - delta)`.
pub open spec fn probe_sum<T: Antifragile>(t: T, at: int, delta: int) -> int {
    t.payoff_spec(at + delta) + t.payoff_spec(at - delta)
}

/// The probe's linear reference value `2 * payoff(at)`.
pub open spec fn probe_twin<T: Antifragile>(t: T, at: int) -> int {
    2 * t.payoff_spec(at)
}

/// Where the probe at `(at, delta)` is defined: the three sampled stress
/// values lie in the system's domain and the perturbed ones fit in `i64`.
pub open spec fn probe_domain<T: Antifragile>(t: T, at: int, delta: int) -> bool {
    &&& t.in_domain(at)
    &&& t.in_domain(at + delta)
    &&& t.in_domain(at - delta)
    &&& i64::MIN <= at + delta <= i64::MAX
    &&& i64::MIN <= at - delta <= i64::MAX
}

/// The classification of a system at an operating point: the sampled sum
/// above the linear reference is convex (`Antifragile`), below it concave
/// (`Fragile`), equal to it linear (`Robust`).
pub open spec fn classify_spec<T: Antifragile>(t: T, at: int, delta: int) -> Triad {
    if probe_sum(t, at, delta) > probe_twin(t, at) {
        Triad::Antifragile
    } else if probe_sum(t, at, delta) < probe_twin(t, at) {
        Triad::Fragile
    } else {
        Triad::Robust
    }
}

/// The tolerance-aware classification: a sampled sum within `epsilon` of the
/// linear reference counts as linear; outside the tolerance the strict rule
/// decides. The tolerance only ever demotes to `Robust`, never moves a
/// result across the strict convex/concave boundary.
pub open spec fn classify_tol_spec<T: Antifragile>(
    t: T,
    at: int,
    delta: int,
    epsilon: int,
) -> Triad {
    let sum = probe_sum(t, at, delta);
    let twin = probe_twin(t, at);
    let diff = if sum >= twin {
        sum - twin
    } else {
        twin - sum
    };
    if diff <= epsilon {
        Triad::Robust
    } else if sum > twin {
        Triad::Antifragile
    } else {
        Triad::Fragile
    }
}

/// The absolute difference of two payoffs.
pub open spec fn payoff_gap(a: int, b: int) -> int {
    if a >= b {
        a - b
    } else {
        b - a
    }
}

/// Classification queries derived from the convexity probe, available on
/// every [`Antifragile`] system.
pub trait TriadAnalysis: Antifragile {
    /// Classifies the system at operating point `at` with perturbation
    /// `delta`, by exact comparison of the probe's two sides. The result
    /// certifies local behaviour at `(at, delta)` only; a different `delta`
    /// may classify a non-globally-convex system differently.
    fn classify(&self, at: i64, delta: i64) -> (t: Triad)
        requires
            probe_domain(*self, at as int, delta as int),
        ensures
            t == classify_spec(*self, at as int, delta as int),
    ;

    /// Classifies with a tolerance: a probe within `epsilon` of linear is
    /// reported `Robust`. Meant for payoffs whose computation rounds, where
    /// exact ties are rare.
    fn classify_with_tolerance(&self, at: i64, delta: i64, epsilon: i64) -> (t: Triad)
        requires
            probe_domain(*self, at as int, delta as int),
        ensures
            t == classify_tol_spec(*self, at as int, delta as int, epsilon as int),
    ;

    /// Whether the system classifies as `Antifragile` at `(at, delta)`.
    fn is_antifragile(&self, at: i64, delta: i64) -> (r: bool)
        requires
            probe_domain(*self, at as int, delta as int),
        ensures
            r == (classify_spec(*self, at as int, delta as int) == Triad::Antifragile),
    ;

    /// Whether higher stress gives a strictly better payoff: a plain
    /// monotonicity check, independent of the convexity classification.
    fn gains_from_stress(&self, low: i64, high: i64) -> (r: bool)
        requires
            self.in_domain(low as int),
            self.in_domain(high as int),
        ensures
            r == (self.payoff_spec(high as int) > self.payoff_spec(low as int)),
    ;

    /// Whether the payoff moves by at most `threshold` between the two
    /// stress levels, measured as an order-safe absolute difference.
    fn is_stable(&self, low: i64, high: i64, threshold: i64) -> (r: bool)
        requires
            self.in_domain(low as int),
            self.in_domain(high as int),
        ensures
            r == (payoff_gap(
                self.payoff_spec(low as int),
                self.payoff_spec(high as int),
            ) <= threshold),
    ;
}

impl<T: Antifragile> TriadAnalysis for T {
    fn classify(&self, at: i64, delta: i64) -> (t: Triad) {
        let f_x = self.payoff(at);
        let f_plus = self.payoff(at + delta);
        let f_minus = self.payoff(at - delta);
        let sum = f_plus + f_minus;
        let twin_f_x = Self::twin(f_x);
        if sum > twin_f_x {
            Triad::Antifragile
        } else if sum < twin_f_x {
            Triad::Fragile
        } else {
            Triad::Robust
        }
    }

    fn classify_with_tolerance(&self, at: i64, delta: i64, epsilon: i64) -> (t: Triad) {
        let f_x = self.payoff(at);
        let f_plus = self.payoff(at + delta);
        let f_minus = self.payoff(at - delta);
        let sum = f_plus + f_minus;
        let twin_f_x = Self::twin(f_x);
        let diff = if sum >= twin_f_x {
            sum - twin_f_x
        } else {
            twin_f_x - sum
        };
        if diff <= epsilon {
            Triad::Robust
        } else if sum > twin_f_x {
            Triad::Antifragile
        } else {
            Triad::Fragile
        }
    }

    fn is_antifragile(&self, at: i64, delta: i64) -> (r: bool) {
        let t = self.classify(at, delta);
        t.is_antifragile()
    }

    fn gains_from_stress(&self, low: i64, high: i64) -> (r: bool) {
        let payoff_low = self.payoff(low);
        let payoff_high = self.payoff(high);
        payoff_high > payoff_low
    }

    fn is_stable(&self, low: i64, high: i64, threshold: i64) -> (r: bool) {
        let payoff_low = self.payoff(low);
        let payoff_high = self.payoff(high);
        if payoff_high >= payoff_low {
            payoff_high - payoff_low <= threshold
        } else {
            payoff_low - payoff_high <= threshold
        }
    }
}

/// Law: probing with `delta == 0` reports `Robust`, whatever the system and
/// the operating point: both perturbed samples coincide with the center one.
pub proof fn lemma_zero_delta_robust<T: Antifragile>(t: T, at: int)
    ensures
        classify_spec(t, at, 0) == Triad::Robust,
{
}

/// Law: a quadratic payoff is `Antifragile` at every operating point and
/// every nonzero perturbation.
pub proof fn lemma_quadratic_is_antifragile<T: Antifragile>(t: T, at: int, delta: int)
    requires
        delta != 0,
        forall|x: int| t.payoff_spec(x) == x * x,
    ensures
        classify_spec(t, at, delta) == Triad::Antifragile,
{
    assert((at + delta) * (at + delta) + (at - delta) * (at - delta) > 2 * (at * at))
        by (nonlinear_arith)
        requires
            delta != 0,
    ;
}

/// Law: an affine payoff is `Robust` at every operating point and every
/// perturbation.
pub proof fn lemma_affine_is_robust<T: Antifragile>(
    t: T,
    slope: int,
    intercept: int,
    at: int,
    delta: int,
)
    requires
        forall|x: int| t.payoff_spec(x) == slope * x + intercept,
    ensures
        classify_spec(t, at, delta) == Triad::Robust,
{
    assert(slope * (at + delta) + slope * (at - delta) == 2 * (slope * at)) by (nonlinear_arith);
}

/// Law: where the probe samples a strictly concave triple, the
/// classification is `Fragile`.
pub proof fn lemma_concave_probe_is_fragile<T: Antifragile>(t: T, at: int, delta: int)
    requires
        probe_sum(t, at, delta) < probe_twin(t, at),
    ensures
        classify_spec(t, at, delta) == Triad::Fragile,
{
}

/// Law: where the strict probe sees a convex gap no larger than `epsilon`,
/// the strict classification is `Antifragile` while the tolerance-aware one
/// reports `Robust`: the tolerance masks vanishingly small convexity.
pub proof fn lemma_tolerance_masks_small_convexity<T: Antifragile>(
    t: T,
    at: int,
    delta: int,
    epsilon: int,
)
    requires
        probe_twin(t, at) < probe_sum(t, at, delta),
        probe_sum(t, at, delta) - probe_twin(t, at) <= epsilon,
    ensures
        classify_spec(t, at, delta) == Triad::Antifragile,
        classify_tol_spec(t, at, delta, epsilon) == Triad::Robust,
{
}

} // verus!
