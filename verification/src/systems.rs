//! Reference payoff systems: a convex, a concave and a linear payoff.
//!
//! They make the probe concrete: a quadratic payoff benefits from variance,
//! a square-root payoff is harmed by it, an affine payoff is indifferent.
//! Payoffs are integers; [`ScaledRoot`] reports its square root in
//! thousandths to keep the curvature visible at integer resolution.

use crate::analysis::Antifragile;
use vstd::prelude::*;

verus! {

/// The square root of a non-negative number, rounded down.
pub open spec fn sqrt_floor(n: int) -> int
    decreases n,
{
    if n < 1 {
        0
    } else {
        let r = sqrt_floor(n - 1);
        if (r + 1) * (r + 1) <= n {
            r + 1
        } else {
            r
        }
    }
}

/// `sqrt_floor(n)` is the unique non-negative root bracket of `n`: its
/// square is at most `n` and the next square is beyond `n`.
pub proof fn lemma_sqrt_floor_brackets(n: int)
    requires
        n >= 0,
    ensures
        0 <= sqrt_floor(n),
        sqrt_floor(n) * sqrt_floor(n) <= n,
        n < (sqrt_floor(n) + 1) * (sqrt_floor(n) + 1),
    decreases n,
{
    if n < 1 {
    } else {
        lemma_sqrt_floor_brackets(n - 1);
        let r = sqrt_floor(n - 1);
        if (r + 1) * (r + 1) <= n {
            assert((r + 2) * (r + 2) > n) by (nonlinear_arith)
                requires
                    r >= 0,
                    n - 1 < (r + 1) * (r + 1),
                    (r + 1) * (r + 1) <= n,
            ;
        }
    }
}

/// Any non-negative value whose square is at most `n` while the next square
/// is beyond `n` equals `sqrt_floor(n)`.
pub proof fn lemma_sqrt_floor_unique(n: int, r: int)
    requires
        n >= 0,
        r >= 0,
        r * r <= n,
        n < (r + 1) * (r + 1),
    ensures
        r == sqrt_floor(n),
{
    lemma_sqrt_floor_brackets(n);
    let s = sqrt_floor(n);
    assert(r == s) by (nonlinear_arith)
        requires
            r >= 0,
            s >= 0,
            r * r <= n,
            n < (r + 1) * (r + 1),
            s * s <= n,
            n < (s + 1) * (s + 1),
    ;
}

/// The square root of a number, rounded down, by bisection.
fn isqrt_u64(n: u64) -> (r: u64)
    ensures
        r as int * r as int <= n as int,
        (n as int) < (r as int + 1) * (r as int + 1),
{
    let mut lo: u64 = 0;
    let mut hi: u64 = 4_294_967_296;
    proof {
        assert((n as int) < 4_294_967_296 * 4_294_967_296) by (nonlinear_arith)
            requires
                n <= u64::MAX,
        ;
    }
    while hi - lo > 1
        invariant
            lo < hi <= 4_294_967_296,
            lo as int * lo as int <= n as int,
            (n as int) < hi as int * hi as int,
        decreases hi - lo,
    {
        let mid = lo + (hi - lo) / 2;
        proof {
            assert(mid as int * mid as int <= u64::MAX) by (nonlinear_arith)
                requires
                    mid < 4_294_967_296,
            ;
        }
        if mid * mid <= n {
            lo = mid;
        } else {
            hi = mid;
        }
    }
    lo
}

/// A convex payoff: the square of the stress value.
pub struct Squared;

impl Antifragile for Squared {
    /// Stress values whose square stays well inside the payoff range.
    open spec fn in_domain(&self, x: int) -> bool {
        -1_000_000_000 <= x <= 1_000_000_000
    }

    open spec fn payoff_spec(&self, x: int) -> int {
        x * x
    }

    fn payoff(&self, stressor: i64) -> (r: i64) {
        proof {
            assert(0 <= stressor * stressor <= 1_000_000_000_000_000_000) by (nonlinear_arith)
                requires
                    -1_000_000_000 <= stressor <= 1_000_000_000,
            ;
        }
        stressor * stressor
    }
}

/// A linear payoff: `slope * x + intercept`.
pub struct Affine {
    /// Change of payoff for a unit of stress.
    pub slope: i64,
    /// Payoff at zero stress.
    pub intercept: i64,
}

impl Antifragile for Affine {
    /// Stress values and coefficients whose products stay well inside the
    /// payoff range.
    open spec fn in_domain(&self, x: int) -> bool {
        &&& -1_000_000_000 <= x <= 1_000_000_000
        &&& -1_000_000 <= self.slope <= 1_000_000
        &&& -1_000_000_000 <= self.intercept <= 1_000_000_000
    }

    open spec fn payoff_spec(&self, x: int) -> int {
        self.slope * x + self.intercept
    }

    fn payoff(&self, stressor: i64) -> (r: i64) {
        proof {
            assert(-1_000_000_000_000_000 <= self.slope * stressor <= 1_000_000_000_000_000)
                by (nonlinear_arith)
                requires
                    -1_000_000_000 <= stressor <= 1_000_000_000,
                    -1_000_000 <= self.slope <= 1_000_000,
            ;
        }
        self.slope * stressor + self.intercept
    }
}

/// An almost linear payoff with a vanishingly small convex term:
/// `1_000_000 * x + x * x`. Around small operating points the strict probe
/// still sees the convexity, while a modest tolerance reads it as linear.
pub struct NearlyAffine;

impl Antifragile for NearlyAffine {
    /// Stress values whose payoff stays well inside the payoff range.
    open spec fn in_domain(&self, x: int) -> bool {
        -1_000_000 <= x <= 1_000_000
    }

    open spec fn payoff_spec(&self, x: int) -> int {
        1_000_000 * x + x * x
    }

    fn payoff(&self, stressor: i64) -> (r: i64) {
        proof {
            assert(0 <= stressor * stressor <= 1_000_000_000_000) by (nonlinear_arith)
                requires
                    -1_000_000 <= stressor <= 1_000_000,
            ;
        }
        1_000_000 * stressor + stressor * stressor
    }
}

/// A concave payoff: the square root of the magnitude of the stress value,
/// in thousandths (`sqrt_floor(|x| * 1_000_000)`, since
/// `1000 * sqrt(|x|) == sqrt(1_000_000 * |x|)`).
pub struct ScaledRoot;

impl Antifragile for ScaledRoot {
    /// Stress values whose scaled magnitude fits the root computation.
    open spec fn in_domain(&self, x: int) -> bool {
        -1_000_000_000_000 <= x <= 1_000_000_000_000
    }

    open spec fn payoff_spec(&self, x: int) -> int {
        sqrt_floor(1_000_000 * (if x < 0 {
            -x
        } else {
            x
        }))
    }

    fn payoff(&self, stressor: i64) -> (r: i64) {
        let magnitude: i64 = if stressor < 0 {
            -stressor
        } else {
            stressor
        };
        let n: u64 = (magnitude as u64) * 1_000_000;
        let root = isqrt_u64(n);
        proof {
            lemma_sqrt_floor_unique(n as int, root as int);
            assert(root < 2_000_000_000) by (nonlinear_arith)
                requires
                    root as int * root as int <= n as int,
                    n <= 1_000_000_000_000_000_000,
            ;
        }
        root as i64
    }
}

} // verus!
