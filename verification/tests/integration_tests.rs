use antifragile::Affine;
use antifragile::Antifragile;
use antifragile::ScaledRoot;
use antifragile::Squared;
use antifragile::Triad;
use antifragile::TriadAnalysis;
use antifragile::Verified;

#[test]
fn test_end_to_end_workflow() {
    // 1. Create a system
    let system = Squared;

    // 2. Classify it
    let classification = system.classify(10, 1);
    assert_eq!(classification, Triad::Antifragile);

    // 3. Use helper methods
    assert!(system.is_antifragile(10, 1));
    assert!(system.gains_from_stress(1, 2));

    // 4. Wrap in Verified
    let verified = Verified::check(system, 10, 1);
    assert!(verified.is_antifragile());
    assert_eq!(verified.classification(), Triad::Antifragile);

    // 5. Access the inner system
    assert_eq!(verified.inner().payoff(3), 9);
}

#[test]
fn test_all_triad_classifications() {
    let convex = Squared;
    let concave = ScaledRoot;
    let linear = Affine { slope: 2, intercept: 5 };

    assert_eq!(convex.classify(10, 1), Triad::Antifragile);
    assert_eq!(concave.classify(10, 1), Triad::Fragile);
    assert_eq!(linear.classify(10, 1), Triad::Robust);
}

#[test]
fn integration_tests_test_triad_ordering() {
    let mut classifications = vec![Triad::Antifragile, Triad::Fragile, Triad::Robust];
    classifications.sort();

    assert_eq!(
        classifications,
        vec![Triad::Fragile, Triad::Robust, Triad::Antifragile]
    );
}

#[test]
fn test_triad_conversions() {
    // To/from u8
    assert_eq!(u8::from(Triad::Antifragile), 2);
    assert_eq!(Triad::try_from(0u8), Ok(Triad::Fragile));

    // To/from string
    let s: &str = Triad::Fragile.as_str();
    assert_eq!(s, "fragile");
    assert_eq!("fragile".parse::<Triad>(), Ok(Triad::Fragile));

    // Case insensitive parsing
    assert_eq!("ROBUST".parse::<Triad>(), Ok(Triad::Robust));
}

#[test]
fn integration_tests_test_verified_wrapper() {
    let verified = Verified::check(Squared, 10, 1);

    assert!(verified.is_antifragile());
    assert!(!verified.is_fragile());
    assert!(!verified.is_robust());

    // Access the inner system
    let inner: &Squared = verified.inner();
    assert_eq!(inner.payoff(2), 4);

    // Unwrap
    let _system = verified.into_inner();
}
