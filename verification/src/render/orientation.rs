//! Body orientation parameters following the IAU/NAIF conventions.
//!
//! Angles are held in fixed point: one unit is 1e-10 degree (and, for the
//! rotation rate, 1e-10 degree per day); epochs are in units of 1e-10 Julian
//! day. Every published parameter below is exact in these units.

use vstd::prelude::*;

verus! {

/// Fixed-point units per degree (or per day, for epochs).
pub const UNITS_PER_DEGREE: i64 = 10_000_000_000;

/// Orientation of a body: its north pole, its prime meridian at the
/// reference epoch, and its rotation rate.
#[derive(Clone, Copy, Debug, PartialEq, Eq, Structural)]
pub struct UniformOrientation {
    /// Right ascension of the north pole.
    pub pole_ra: i64,
    /// Declination of the north pole.
    pub pole_dec: i64,
    /// Prime meridian angle at the reference epoch.
    pub prime_meridian: i64,
    /// Rotation rate, per day.
    pub rotation_rate_per_day: i64,
    /// Reference epoch (Julian day).
    pub epoch_jd: i64,
}

impl UniformOrientation {
    /// An orientation from its five parameters.
    pub fn new(
        pole_ra: i64,
        pole_dec: i64,
        prime_meridian: i64,
        rotation_rate_per_day: i64,
        epoch_jd: i64,
    ) -> (o: Self)
        ensures
            o == (UniformOrientation { pole_ra, pole_dec, prime_meridian, rotation_rate_per_day, epoch_jd }),
    {
        UniformOrientation { pole_ra, pole_dec, prime_meridian, rotation_rate_per_day, epoch_jd }
    }
}

/// Earth (IAU 2000/2006): pole at the celestial pole, 360.9856842323°/day,
/// J2000 epoch.
pub fn earth_orientation() -> (o: UniformOrientation)
    ensures
        o.pole_ra == 0,
        o.pole_dec == 90 * UNITS_PER_DEGREE,
        o.prime_meridian == 0,
        o.rotation_rate_per_day == 3_609_856_842_323,
        o.epoch_jd == 2_451_545 * UNITS_PER_DEGREE,
{
    UniformOrientation {
        pole_ra: 0,
        pole_dec: 900_000_000_000,
        prime_meridian: 0,
        rotation_rate_per_day: 3_609_856_842_323,
        epoch_jd: 24_515_450_000_000_000,
    }
}

/// Jupiter (IAU 2000/2006): pole at RA 268.05653°, Dec 64.49538°, prime
/// meridian 195.08766°, 12.5570°/day, J2000 epoch.
pub fn jupiter_orientation() -> (o: UniformOrientation)
    ensures
        o.pole_ra == 2_680_565_300_000,
        o.pole_dec == 644_953_800_000,
        o.prime_meridian == 1_950_876_600_000,
        o.rotation_rate_per_day == 125_570_000_000,
        o.epoch_jd == 2_451_545 * UNITS_PER_DEGREE,
{
    UniformOrientation {
        pole_ra: 2_680_565_300_000,
        pole_dec: 644_953_800_000,
        prime_meridian: 1_950_876_600_000,
        rotation_rate_per_day: 125_570_000_000,
        epoch_jd: 24_515_450_000_000_000,
    }
}

} // verus!
