use antifragile::Affine;
use antifragile::Antifragile;
use antifragile::NearlyAffine;
use antifragile::ScaledRoot;
use antifragile::Squared;
use antifragile::Triad;
use antifragile::TriadAnalysis;
use antifragile::Verified;

#[test]
fn test_quadratic_scenario() {
    // f(x) = x^2 at 10 with delta 1: 81 + 121 = 202 > 200.
    let system = Squared;
    assert_eq!(system.payoff(9), 81);
    assert_eq!(system.payoff(10), 100);
    assert_eq!(system.payoff(11), 121);
    assert_eq!(system.payoff(9) + system.payoff(11), 202);
    assert_eq!(Squared::twin(system.payoff(10)), 200);
    assert_eq!(system.classify(10, 1), Triad::Antifragile);
}

#[test]
fn test_square_root_scenario() {
    // f(x) = sqrt(|x|) in thousandths at 10 with delta 1:
    // 3000 + 3316 = 6316 < 6324 = 2 * 3162.
    let system = ScaledRoot;
    assert_eq!(system.payoff(9), 3000);
    assert_eq!(system.payoff(10), 3162);
    assert_eq!(system.payoff(11), 3316);
    assert_eq!(system.payoff(9) + system.payoff(11), 6316);
    assert_eq!(ScaledRoot::twin(system.payoff(10)), 6324);
    assert_eq!(system.classify(10, 1), Triad::Fragile);
}

#[test]
fn test_affine_scenario() {
    // f(x) = 2x + 5 at 10 with delta 1: 23 + 27 = 50 = 2 * 25.
    let system = Affine { slope: 2, intercept: 5 };
    assert_eq!(system.payoff(9), 23);
    assert_eq!(system.payoff(10), 25);
    assert_eq!(system.payoff(11), 27);
    assert_eq!(system.payoff(9) + system.payoff(11), 50);
    assert_eq!(Affine::twin(system.payoff(10)), 50);
    assert_eq!(system.classify(10, 1), Triad::Robust);
}

#[test]
fn test_zero_delta_is_robust_everywhere() {
    let convex = Squared;
    let concave = ScaledRoot;
    let linear = Affine { slope: 3, intercept: -7 };
    for at in [-1000_i64, -1, 0, 1, 42, 1000] {
        assert_eq!(convex.classify(at, 0), Triad::Robust);
        assert_eq!(concave.classify(at, 0), Triad::Robust);
        assert_eq!(linear.classify(at, 0), Triad::Robust);
    }
}

#[test]
fn test_quadratic_antifragile_everywhere() {
    let system = Squared;
    for at in [-50_i64, -1, 0, 3, 1000] {
        for delta in [1_i64, 2, 17] {
            assert_eq!(system.classify(at, delta), Triad::Antifragile);
            assert_eq!(system.classify(at, -delta), Triad::Antifragile);
        }
    }
}

#[test]
fn test_affine_robust_everywhere() {
    let system = Affine { slope: -9, intercept: 1000 };
    for at in [-50_i64, 0, 3, 1000] {
        for delta in [0_i64, 1, 17] {
            assert_eq!(system.classify(at, delta), Triad::Robust);
        }
    }
}

#[test]
fn test_tolerance_masks_small_convexity() {
    // The convex term contributes 2 * delta^2 = 2 to the probe, which the
    // strict test sees and a tolerance of 2 hides.
    let system = NearlyAffine;
    assert_eq!(system.classify(10, 1), Triad::Antifragile);
    assert_eq!(system.classify_with_tolerance(10, 1, 2), Triad::Robust);
    // A tolerance below the gap hides nothing.
    assert_eq!(system.classify_with_tolerance(10, 1, 1), Triad::Antifragile);
}

#[test]
fn test_tolerance_on_concave_side() {
    // The concave gap at (10, 1) is 6324 - 6316 = 8.
    let system = ScaledRoot;
    assert_eq!(system.classify_with_tolerance(10, 1, 8), Triad::Robust);
    assert_eq!(system.classify_with_tolerance(10, 1, 7), Triad::Fragile);
}

#[test]
fn test_verified_caching() {
    let verified = Verified::check(Squared, 10, 1);
    // The stored value equals a direct classification.
    assert_eq!(verified.classification(), Squared.classify(10, 1));
    // At the same point the stored classification still holds.
    assert!(verified.still_holds(10, 1));
    // A zero-delta probe classifies differently; the cache sees the drift
    // without committing to it.
    assert!(!verified.still_holds(10, 0));
    assert_eq!(verified.classification(), Triad::Antifragile);
}

#[test]
fn test_re_verify_updates_stored_value() {
    let mut verified = Verified::check(Squared, 10, 1);
    assert_eq!(verified.classification(), Triad::Antifragile);
    verified.re_verify(10, 0);
    assert_eq!(verified.classification(), Triad::Robust);
    verified.re_verify(10, 1);
    assert_eq!(verified.classification(), Triad::Antifragile);
}

#[test]
fn test_byte_round_trip_all_valid() {
    for b in 0_u8..=2 {
        let t = Triad::try_from(b).unwrap();
        assert_eq!(u8::from(t), b);
    }
    for t in Triad::iter() {
        assert_eq!(Triad::try_from(u8::from(t)), Ok(t));
    }
}

#[test]
fn test_token_round_trip_all_valid() {
    for t in Triad::iter() {
        assert_eq!(t.as_str().parse::<Triad>(), Ok(t));
        assert_eq!(t.as_str().to_uppercase().parse::<Triad>(), Ok(t));
    }
}

#[test]
fn test_opposite_involution_all() {
    for t in Triad::iter() {
        assert_eq!(t.opposite().opposite(), t);
    }
    assert_eq!(Triad::Robust.opposite(), Triad::Robust);
}

#[test]
fn test_invalid_bytes_rejected() {
    for b in 3_u8..=255 {
        let err = Triad::try_from(b).unwrap_err();
        assert_eq!(err.0, b);
    }
    assert_eq!(
        antifragile::InvalidTriadValue(255).message(),
        "invalid triad value: 255 (expected 0, 1, or 2)"
    );
    assert_eq!(
        antifragile::InvalidTriadValue(7).message(),
        "invalid triad value: 7 (expected 0, 1, or 2)"
    );
}

#[test]
fn test_is_stable() {
    // Constant payoff: perfectly stable.
    let constant = Affine { slope: 0, intercept: 10 };
    assert!(constant.is_stable(1, 100, 0));
    // |4 - 1| = 3 for the quadratic between 1 and 2.
    let convex = Squared;
    assert!(convex.is_stable(1, 2, 3));
    assert!(!convex.is_stable(1, 2, 2));
    // Order of the arguments does not matter.
    assert!(convex.is_stable(2, 1, 3));
    assert!(!convex.is_stable(2, 1, 2));
}

#[test]
fn test_gains_from_stress_exact() {
    let concave = ScaledRoot;
    assert_eq!(concave.payoff(1), 1000);
    assert_eq!(concave.payoff(4), 2000);
    assert!(concave.gains_from_stress(1, 4));
    assert!(!concave.gains_from_stress(4, 1));
    assert!(!concave.gains_from_stress(4, 4));
}
