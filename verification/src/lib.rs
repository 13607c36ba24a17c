//! Convexity-based classification of how a system responds to stress.
//!
//! A system exposes a payoff function over a stress value. Probing the payoff
//! at `at - delta`, `at`, and `at + delta` and comparing
//! `payoff(at + delta) + payoff(at - delta)` against twice `payoff(at)` gives
//! a finite-difference convexity test: a convex payoff benefits from
//! volatility (antifragile), a concave one is harmed by it (fragile), and a
//! linear one is unaffected (robust).

pub mod analysis;
pub mod systems;
pub mod triad;
pub mod verified;

pub use analysis::Antifragile;
pub use analysis::TriadAnalysis;
pub use analysis::PAYOFF_LIMIT;
pub use systems::Affine;
pub use systems::NearlyAffine;
pub use systems::ScaledRoot;
pub use systems::Squared;
pub use triad::InvalidTriadValue;
pub use triad::ParseTriadError;
pub use triad::Triad;
pub use verified::Verified;
