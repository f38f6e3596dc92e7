//! Orientation parameters of the bundled bodies.

use solaris_tty::render::orientation::{earth_orientation, UNITS_PER_DEGREE};

fn degrees(units: i64) -> f64 {
    units as f64 / UNITS_PER_DEGREE as f64
}

#[test]
fn test_earth_orientation() {
    let earth = earth_orientation();
    assert_eq!(degrees(earth.pole_ra), 0.0);
    assert_eq!(degrees(earth.pole_dec), 90.0);
    assert_eq!(degrees(earth.rotation_rate_per_day), 360.985_684_232_3);
}
