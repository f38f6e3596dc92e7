//! Body kinds, orbit status lines and trails.

use std::collections::VecDeque;

use solaris_tty::sim::body::{parse_kind, Kind};
use solaris_tty::sim::orbit::{status, Class, EccentricityBand};
use solaris_tty::sim::trail::push_capped;

#[test]
fn kinds_parse_and_label() {
    assert_eq!(parse_kind("star"), Kind::Star);
    assert_eq!(parse_kind("moon"), Kind::Moon);
    assert_eq!(parse_kind("satellite"), Kind::Satellite);
    assert_eq!(parse_kind("debris"), Kind::Debris);
    assert_eq!(parse_kind("planet"), Kind::Planet);
    assert_eq!(parse_kind("dwarf"), Kind::Planet);
    for k in [Kind::Star, Kind::Planet, Kind::Moon, Kind::Satellite, Kind::Debris] {
        assert_eq!(parse_kind(k.label()), k);
    }
}

#[test]
fn orbit_status_lines() {
    assert_eq!(status(Class::Hyperbolic, EccentricityBand::NearCircular), "unbound — hyperbolic escape trajectory");
    assert_eq!(status(Class::Parabolic, EccentricityBand::Elliptical), "marginal — near parabolic escape");
    assert_eq!(status(Class::Bound, EccentricityBand::NearCircular), "bound — near-circular orbit");
    assert_eq!(status(Class::Bound, EccentricityBand::Elliptical), "bound — elliptical orbit");
    assert_eq!(status(Class::Bound, EccentricityBand::HighlyEccentric), "bound — highly eccentric orbit");
}

#[test]
fn trails_keep_the_newest_points() {
    let mut t: VecDeque<u32> = VecDeque::new();
    for i in 0..5 {
        push_capped(&mut t, i, 3);
    }
    assert_eq!(t, VecDeque::from(vec![2, 3, 4]));
    // A cap of zero records nothing and leaves the trail as it was.
    push_capped(&mut t, 9, 0);
    assert_eq!(t, VecDeque::from(vec![2, 3, 4]));
}
