//! Orbit classification and the status line the trace panel shows for it.

use vstd::prelude::*;

verus! {

/// Orbit classification from specific orbital energy ε relative to the
/// attractor.
#[derive(Debug, Clone, Copy, PartialEq, Eq, Structural)]
pub enum Class {
    /// ε < 0: an ellipse.
    Bound,
    /// ε ≈ 0: on the edge of escape.
    Parabolic,
    /// ε > 0: an escape trajectory.
    Hyperbolic,
}

/// Eccentricity band of a bound orbit: below 0.05, below 0.6, or above.
#[derive(Debug, Clone, Copy, PartialEq, Eq, Structural)]
pub enum EccentricityBand {
    NearCircular,
    Elliptical,
    HighlyEccentric,
}

/// The status line for an orbit of the given class and eccentricity band.
pub open spec fn spec_status(class: Class, band: EccentricityBand) -> Seq<char> {
    match class {
        Class::Hyperbolic => "unbound — hyperbolic escape trajectory"@,
        Class::Parabolic => "marginal — near parabolic escape"@,
        Class::Bound => match band {
            EccentricityBand::NearCircular => "bound — near-circular orbit"@,
            EccentricityBand::Elliptical => "bound — elliptical orbit"@,
            EccentricityBand::HighlyEccentric => "bound — highly eccentric orbit"@,
        },
    }
}

/// The human-readable status line for the trace panel.
pub fn status(class: Class, band: EccentricityBand) -> (s: &'static str)
    ensures
        s@ == spec_status(class, band),
{
    match class {
        Class::Hyperbolic => "unbound — hyperbolic escape trajectory",
        Class::Parabolic => "marginal — near parabolic escape",
        Class::Bound => match band {
            EccentricityBand::NearCircular => "bound — near-circular orbit",
            EccentricityBand::Elliptical => "bound — elliptical orbit",
            EccentricityBand::HighlyEccentric => "bound — highly eccentric orbit",
        },
    }
}

} // verus!
