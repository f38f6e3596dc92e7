//! The scenarios bundled with the program, as TOML text.

use vstd::prelude::*;

use crate::text::str_eq;

verus! {

/// The default Solar System: the Sun, eight planets and eight moons.
pub const SOLAR_TOML: &'static str = "name = \"Realistic Solar System\"
description = \"Approximate Newtonian Solar System using real masses, distances, and velocities.\"

[simulation]
time_step = 3600.0
substeps = 4
gravitational_constant = 6.67430e-11

[relativity]
enabled = true
model = \"1pn_schwarzschild\"
source = \"Sun\"
targets = [\"Mercury\", \"Venus\", \"Earth\", \"Mars\"]

[render]
scale = \"compressed\"
trail_length = 2000
show_labels = true

[trace]
mode = \"compact\"
show_on_load = true
show_on_spawn = true

[[bodies]]
name = \"Sun\"
kind = \"star\"
mass = 1.98892e30
radius = 6.9634e8
distance = 0.0
orbital_velocity = 0.0
glyph = \"☉\"

[[bodies]]
name = \"Mercury\"
kind = \"planet\"
parent = \"Sun\"
mass = 3.30e23
radius = 2.4397e6
distance = 5.79e10
eccentricity = 0.205

[[bodies]]
name = \"Venus\"
kind = \"planet\"
parent = \"Sun\"
mass = 4.867e24
radius = 6.0518e6
distance = 1.082e11
eccentricity = 0.007

[[bodies]]
name = \"Earth\"
kind = \"planet\"
parent = \"Sun\"
mass = 5.9722e24
radius = 6.371e6
distance = 1.495978707e11
eccentricity = 0.017

[[bodies]]
name = \"Moon\"
kind = \"moon\"
parent = \"Earth\"
mass = 7.342e22
radius = 1.7374e6
distance = 3.844e8
eccentricity = 0.0549

[[bodies]]
name = \"Mars\"
kind = \"planet\"
parent = \"Sun\"
mass = 6.417e23
radius = 3.3895e6
distance = 2.279e11
eccentricity = 0.094

[[bodies]]
name = \"Phobos\"
kind = \"moon\"
parent = \"Mars\"
mass = 1.06e16
radius = 1.108e4
distance = 9.377e6
eccentricity = 0.0151

[[bodies]]
name = \"Deimos\"
kind = \"moon\"
parent = \"Mars\"
mass = 1.44e15
radius = 6.2e3
distance = 2.346e7
eccentricity = 0.0003

[[bodies]]
name = \"Jupiter\"
kind = \"planet\"
parent = \"Sun\"
mass = 1.898e27
radius = 6.9911e7
distance = 7.785e11
eccentricity = 0.049

[[bodies]]
name = \"Io\"
kind = \"moon\"
parent = \"Jupiter\"
mass = 8.932e22
radius = 1.8215e6
distance = 4.217e8
eccentricity = 0.0041

[[bodies]]
name = \"Europa\"
kind = \"moon\"
parent = \"Jupiter\"
mass = 4.800e22
radius = 1.5608e6
distance = 6.711e8
eccentricity = 0.009

[[bodies]]
name = \"Ganymede\"
kind = \"moon\"
parent = \"Jupiter\"
mass = 1.4819e23
radius = 2.6312e6
distance = 1.0704e9
eccentricity = 0.0013

[[bodies]]
name = \"Callisto\"
kind = \"moon\"
parent = \"Jupiter\"
mass = 1.0759e23
radius = 2.4103e6
distance = 1.8827e9
eccentricity = 0.0074

[[bodies]]
name = \"Saturn\"
kind = \"planet\"
parent = \"Sun\"
mass = 5.683e26
radius = 5.8232e7
distance = 1.4335e12
eccentricity = 0.057

[[bodies]]
name = \"Titan\"
kind = \"moon\"
parent = \"Saturn\"
mass = 1.3452e23
radius = 2.5747e6
distance = 1.2219e9
eccentricity = 0.0288

[[bodies]]
name = \"Uranus\"
kind = \"planet\"
parent = \"Sun\"
mass = 8.681e25
radius = 2.5362e7
distance = 2.8725e12
eccentricity = 0.046

[[bodies]]
name = \"Neptune\"
kind = \"planet\"
parent = \"Sun\"
mass = 1.024e26
radius = 2.4622e7
distance = 4.4951e12
eccentricity = 0.011
";

/// Jupiter and the four Galilean moons.
pub const JUPITER_TOML: &'static str = "name = \"Jupiter & the Galilean Moons\"
description = \"Io, Europa, Ganymede, Callisto orbiting Jupiter — the 1:2:4 Laplace resonance Galileo saw in 1610.\"

[simulation]
time_step = 120.0
substeps = 80
softening = 1.0e5

[render]
scale = \"compressed\"
trail_length = 2000
representation = \"heliocentric\"

[trace]
mode = \"compact\"
show_on_load = true

[[bodies]]
name = \"Jupiter\"
kind = \"planet\"
mass = 1.898e27
radius = 6.9911e7
distance = 0.0
orbital_velocity = 0.0
glyph = \"@\"
about = \"Gas giant; 318 Earth masses, the Solar System's largest planet\"

[[bodies]]
name = \"Io\"
kind = \"moon\"
mass = 8.932e22
radius = 1.8216e6
distance = 4.217e8
orbital_velocity = 17332.0
about = \"Most volcanically active body in the Solar System\"

[[bodies]]
name = \"Europa\"
kind = \"moon\"
mass = 4.800e22
radius = 1.5608e6
distance = 6.711e8
orbital_velocity = 13740.0
about = \"Ice shell over a subsurface ocean\"

[[bodies]]
name = \"Ganymede\"
kind = \"moon\"
mass = 1.4819e23
radius = 2.6341e6
distance = 1.0704e9
orbital_velocity = 10879.0
about = \"Largest moon in the Solar System; bigger than Mercury\"

[[bodies]]
name = \"Callisto\"
kind = \"moon\"
mass = 1.0759e23
radius = 2.4103e6
distance = 1.8827e9
orbital_velocity = 8203.0
about = \"Most heavily cratered body known\"
";

/// Saturn, its rings, and four of its moons.
pub const SATURN_TOML: &'static str = "name = \"Saturn, its Rings & Moons\"
description = \"Enceladus, Rhea, Titan, Iapetus around ringed Saturn.\"

[simulation]
time_step = 200.0
substeps = 60
softening = 1.0e5

[render]
scale = \"compressed\"
trail_length = 2000
representation = \"heliocentric\"

[trace]
mode = \"compact\"
show_on_load = true

[[bodies]]
name = \"Saturn\"
kind = \"planet\"
mass = 5.683e26
radius = 6.0268e7
distance = 0.0
orbital_velocity = 0.0
ring_inner = 1.2
ring_outer = 2.3
glyph = \"@\"
about = \"Ringed gas giant; least dense planet (floats in water)\"

[[bodies]]
name = \"Enceladus\"
kind = \"moon\"
mass = 1.08e20
radius = 2.521e5
distance = 2.380e8
orbital_velocity = 12626.0
about = \"Icy moon venting geysers from a subsurface ocean\"

[[bodies]]
name = \"Rhea\"
kind = \"moon\"
mass = 2.306e21
radius = 7.634e5
distance = 5.271e8
orbital_velocity = 8484.0

[[bodies]]
name = \"Titan\"
kind = \"moon\"
mass = 1.345e23
radius = 2.5747e6
distance = 1.2219e9
orbital_velocity = 5572.0
about = \"Thick atmosphere, methane lakes; larger than Mercury\"

[[bodies]]
name = \"Iapetus\"
kind = \"moon\"
mass = 1.806e21
radius = 7.346e5
distance = 3.5613e9
orbital_velocity = 3264.0
about = \"Two-toned moon, one hemisphere bright, one dark\"
";

/// The Pluto–Charon binary.
pub const PLUTO_CHARON_TOML: &'static str = "name = \"Pluto–Charon Binary\"
description = \"A true binary: Pluto and Charon both orbit a barycenter that sits in empty space between them.\"

[simulation]
time_step = 300.0
substeps = 60
softening = 1.0e4

[render]
scale = \"compressed\"
trail_length = 2400
representation = \"heliocentric\"

[trace]
mode = \"compact\"
show_on_load = true

[[bodies]]
name = \"Pluto\"
kind = \"planet\"
mass = 1.303e22
radius = 1.188e6
position = [-2.126e6, 0.0, 0.0]
velocity = [0.0, -24.2, 0.0]
glyph = \"o\"
about = \"Dwarf planet; the barycenter with Charon lies above its surface\"

[[bodies]]
name = \"Charon\"
kind = \"moon\"
mass = 1.586e21
radius = 6.06e5
position = [1.7470e7, 0.0, 0.0]
velocity = [0.0, 198.9, 0.0]
about = \"Half Pluto's diameter — the two are mutually tidally locked\"
";

/// The Earth–Moon system, opened in the co-rotating frame.
pub const EARTH_MOON_TOML: &'static str = "name = \"Earth–Moon\"
description = \"The Earth–Moon system in the co-rotating frame — the barycenter sits ~4670 km from Earth's center, still inside the planet.\"

[simulation]
time_step = 300.0
substeps = 60
softening = 1.0e3

[render]
scale = \"compressed\"
trail_length = 2000
representation = \"co-rotating\"

[trace]
mode = \"compact\"
show_on_load = true

[[bodies]]
name = \"Earth\"
kind = \"planet\"
mass = 5.972e24
radius = 6.371e6
position = [-4.667e6, 0.0, 0.0]
velocity = [0.0, -12.44, 0.0]
glyph = \"e\"

[[bodies]]
name = \"Moon\"
kind = \"moon\"
mass = 7.342e22
radius = 1.737e6
position = [3.7973e8, 0.0, 0.0]
velocity = [0.0, 1012.0, 0.0]
about = \"Raises Earth's tides; slowly receding ~3.8 cm/yr\"
";

/// Burrau's Pythagorean three-body problem.
pub const PYTHAGOREAN_TOML: &'static str = "name = \"Pythagorean Three-Body\"
description = \"Burrau's problem: three masses (3-4-5) at rest on the corners of a 3-4-5 right triangle. Famously chaotic — after close passages it ejects a body. Watch the energy and escape traces.\"

[simulation]
time_step = 3600.0
substeps = 24
softening = 1.0e9

[render]
scale = \"compressed\"
trail_length = 3000
representation = \"top-down\"

[trace]
mode = \"compact\"
show_on_load = true
show_on_escape = true

[[bodies]]
name = \"M3\"
kind = \"star\"
mass = 3.0e30
radius = 3.0e8
position = [1.495978707e11, 4.487936121e11, 0.0]
velocity = [0.0, 0.0, 0.0]
glyph = \"*\"

[[bodies]]
name = \"M4\"
kind = \"star\"
mass = 4.0e30
radius = 3.0e8
position = [-2.991957414e11, -1.495978707e11, 0.0]
velocity = [0.0, 0.0, 0.0]
glyph = \"*\"

[[bodies]]
name = \"M5\"
kind = \"star\"
mass = 5.0e30
radius = 3.0e8
position = [1.495978707e11, -1.495978707e11, 0.0]
velocity = [0.0, 0.0, 0.0]
glyph = \"*\"
";

/// A rogue star rakes the inner Solar System.
pub const FLYBY_TOML: &'static str = "name = \"Rogue Star Flyby\"
description = \"A half-solar-mass star falls through the inner Solar System on a hyperbolic path, unbinding worlds. Escape traces fire live.\"

[simulation]
time_step = 43200.0
substeps = 20
softening = 1.0e7

[render]
scale = \"compressed\"
trail_length = 3000
representation = \"heliocentric\"

[trace]
mode = \"compact\"
show_on_load = true
show_on_escape = true

[[bodies]]
name = \"Sun\"
kind = \"star\"
mass = 1.989e30
radius = 6.9634e8
distance = 0.0
orbital_velocity = 0.0
glyph = \"*\"

[[bodies]]
name = \"Earth\"
kind = \"planet\"
mass = 5.972e24
radius = 6.371e6
distance = 1.495978707e11
orbital_velocity = 29780.0
glyph = \"e\"

[[bodies]]
name = \"Jupiter\"
kind = \"planet\"
mass = 1.898e27
radius = 6.9911e7
distance = 7.785e11
orbital_velocity = 13061.0
glyph = \"@\"

[[bodies]]
name = \"Nemesis\"
kind = \"star\"
mass = 9.945e29
radius = 3.0e8
position = [2.244e12, -4.488e12, 0.0]
velocity = [-5000.0, 25000.0, 0.0]
glyph = \"✦\"
about = \"Rogue 0.5 M☉ interloper on a hyperbolic pass\"
";

/// Packed giant planets that eventually eject one another.
pub const UNSTABLE_TOML: &'static str = "name = \"Packed & Unstable\"
description = \"Four Jupiter-mass planets spaced too tightly (< a few mutual Hill radii). The system goes chaotic and ejects worlds.\"

[simulation]
time_step = 43200.0
substeps = 20
softening = 1.0e7

[render]
scale = \"compressed\"
trail_length = 3000
representation = \"top-down\"

[trace]
mode = \"compact\"
show_on_load = true
show_on_escape = true

[[bodies]]
name = \"Star\"
kind = \"star\"
mass = 1.989e30
radius = 6.9634e8
distance = 0.0
orbital_velocity = 0.0
glyph = \"*\"

[[bodies]]
name = \"b\"
kind = \"planet\"
mass = 1.898e27
radius = 6.9911e7
distance = 7.480e11
orbital_velocity = 13320.0

[[bodies]]
name = \"c\"
kind = \"planet\"
mass = 1.898e27
radius = 6.9911e7
distance = 8.378e11
orbital_velocity = 12585.0

[[bodies]]
name = \"d\"
kind = \"planet\"
mass = 1.898e27
radius = 6.9911e7
distance = 9.276e11
orbital_velocity = 11960.0

[[bodies]]
name = \"e\"
kind = \"planet\"
mass = 1.898e27
radius = 6.9911e7
distance = 1.0173e12
orbital_velocity = 11421.0
";

/// TRAPPIST-1 and its seven tightly packed planets.
pub const TRAPPIST1_TOML: &'static str = "name = \"TRAPPIST-1\"
description = \"Seven Earth-sized planets around an ultracool red dwarf, locked in a resonant chain. All orbits fit well inside Mercury's.\"

[simulation]
time_step = 30.0
substeps = 60
softening = 1.0e6

[render]
scale = \"compressed\"
trail_length = 2000
representation = \"heliocentric\"

[trace]
mode = \"compact\"
show_on_load = true

[[bodies]]
name = \"TRAPPIST-1\"
kind = \"star\"
mass = 1.787e29
radius = 8.16e7
distance = 0.0
orbital_velocity = 0.0
glyph = \"*\"
about = \"0.09 M☉ ultracool dwarf, barely larger than Jupiter\"

[[bodies]]
name = \"b\"
kind = \"planet\"
mass = 8.21e24
radius = 7.15e6
distance = 1.7264e9
orbital_velocity = 83122.0

[[bodies]]
name = \"c\"
kind = \"planet\"
mass = 7.81e24
radius = 6.99e6
distance = 2.3637e9
orbital_velocity = 71034.0

[[bodies]]
name = \"d\"
kind = \"planet\"
mass = 2.32e24
radius = 5.05e6
distance = 3.3316e9
orbital_velocity = 59835.0

[[bodies]]
name = \"e\"
kind = \"planet\"
mass = 4.13e24
radius = 5.80e6
distance = 4.3757e9
orbital_velocity = 52210.0

[[bodies]]
name = \"f\"
kind = \"planet\"
mass = 6.20e24
radius = 6.67e6
distance = 5.7581e9
orbital_velocity = 45513.0

[[bodies]]
name = \"g\"
kind = \"planet\"
mass = 7.89e24
radius = 7.32e6
distance = 7.0057e9
orbital_velocity = 41262.0

[[bodies]]
name = \"h\"
kind = \"planet\"
mass = 1.95e24
radius = 4.88e6
distance = 9.2589e9
orbital_velocity = 35890.0
";

/// An inclined companion star driving Kozai–Lidov cycles on an inner planet.
pub const KOZAI_TOML: &'static str = "name = \"Kozai–Lidov\"
description = \"An inner planet with a massive companion star on a 65°-inclined orbit. Over many orbits the planet trades eccentricity for inclination and back — watch its orbital elements.\"

[simulation]
time_step = 21600.0
substeps = 20
softening = 1.0e7

[render]
scale = \"compressed\"
trail_length = 3000
representation = \"heliocentric\"

[trace]
mode = \"compact\"
show_on_load = true

[[bodies]]
name = \"Primary\"
kind = \"star\"
mass = 1.989e30
radius = 6.9634e8
distance = 0.0
orbital_velocity = 0.0
glyph = \"*\"

[[bodies]]
name = \"Planet\"
kind = \"planet\"
mass = 5.972e24
radius = 6.371e6
distance = 1.495978707e11
orbital_velocity = 29780.0
glyph = \"e\"

[[bodies]]
name = \"Companion\"
kind = \"star\"
mass = 1.989e30
radius = 6.9634e8
position = [5.984e11, 0.0, 0.0]
velocity = [0.0, 6294.0, 13496.0]
glyph = \"*\"
about = \"Equal-mass companion at 4 AU, orbit inclined 65° — the Kozai driver\"
";

/// Earth at the centre, carrying the Sun's mass.
pub const PTOLEMAIC_TOML: &'static str = "name = \"Ptolemaic (Geocentrism, for fun)\"
description = \"Earth in the middle of everything — given the Sun's mass so the whole sky genuinely circles us. Cursed but stable: because Earth is this heavy, every body keeps its real orbital period. The Sun is shrunk so Earth stays in charge.\"

[simulation]
time_step = 3600.0
substeps = 48
softening = 1.0e6

[render]
scale = \"compressed\"
trail_length = 3000
representation = \"geocentric\"

[trace]
mode = \"compact\"
show_on_load = true

[[bodies]]
name = \"Earth\"
kind = \"planet\"
mass = 1.989e30
radius = 6.371e6
distance = 0.0
orbital_velocity = 0.0
glyph = \"e\"
about = \"The center of the universe (for one scenario only)\"

[[bodies]]
name = \"Sun\"
kind = \"star\"
mass = 1.0e29
radius = 6.9634e8
distance = 1.495978707e11
orbital_velocity = 29780.0
glyph = \"*\"
about = \"Demoted to a satellite; mass shrunk so Earth dominates\"

[[bodies]]
name = \"Mercury\"
kind = \"planet\"
mass = 3.30e23
radius = 2.4397e6
distance = 5.79e10
orbital_velocity = 47875.0

[[bodies]]
name = \"Venus\"
kind = \"planet\"
mass = 4.867e24
radius = 6.0518e6
distance = 1.082e11
orbital_velocity = 35020.0

[[bodies]]
name = \"Mars\"
kind = \"planet\"
mass = 6.417e23
radius = 3.3895e6
distance = 2.279e11
orbital_velocity = 24131.0

[[bodies]]
name = \"Jupiter\"
kind = \"planet\"
mass = 1.898e27
radius = 6.9911e7
distance = 7.785e11
orbital_velocity = 13061.0
glyph = \"@\"

[[bodies]]
name = \"Saturn\"
kind = \"planet\"
mass = 5.683e26
radius = 6.0268e7
distance = 1.434e12
orbital_velocity = 9620.0
";

/// One world orbits the wrong way.
pub const RETROGRADE_TOML: &'static str = "name = \"Retrograde World\"
description = \"Two planets around one star — one orbits prograde, the other retrograde. They sweep past each other every crossing.\"

[simulation]
time_step = 3600.0
substeps = 48
softening = 1.0e6

[render]
scale = \"compressed\"
trail_length = 2400
representation = \"heliocentric\"

[trace]
mode = \"compact\"
show_on_load = true

[[bodies]]
name = \"Sun\"
kind = \"star\"
mass = 1.989e30
radius = 6.9634e8
distance = 0.0
orbital_velocity = 0.0
glyph = \"*\"

[[bodies]]
name = \"Prograde\"
kind = \"planet\"
mass = 5.972e24
radius = 6.371e6
distance = 1.495978707e11
orbital_velocity = 29780.0
glyph = \"o\"
about = \"Orbits the normal way (counter-clockwise from ecliptic north)\"

[[bodies]]
name = \"Wrongway\"
kind = \"planet\"
mass = 5.972e24
radius = 6.371e6
distance = 1.9448e11
orbital_velocity = -26123.0
glyph = \"x\"
about = \"Retrograde — negative orbital velocity\"
";

/// The bundled scenarios' names, in the order in which they are listed.
pub open spec fn bundled_names() -> Seq<Seq<char>> {
    seq![
        "solar"@,
        "jupiter"@,
        "saturn"@,
        "pluto-charon"@,
        "earth-moon"@,
        "pythagorean"@,
        "flyby"@,
        "unstable"@,
        "trappist1"@,
        "kozai"@,
        "ptolemaic"@,
        "retrograde"@,
    ]
}

/// The TOML text bundled under `name`, if there is one.
pub open spec fn bundled_toml(name: Seq<char>) -> Option<Seq<char>> {
    if name == "solar"@ {
        Some(SOLAR_TOML@)
    } else if name == "jupiter"@ {
        Some(JUPITER_TOML@)
    } else if name == "saturn"@ {
        Some(SATURN_TOML@)
    } else if name == "pluto-charon"@ {
        Some(PLUTO_CHARON_TOML@)
    } else if name == "earth-moon"@ {
        Some(EARTH_MOON_TOML@)
    } else if name == "pythagorean"@ {
        Some(PYTHAGOREAN_TOML@)
    } else if name == "flyby"@ {
        Some(FLYBY_TOML@)
    } else if name == "unstable"@ {
        Some(UNSTABLE_TOML@)
    } else if name == "trappist1"@ {
        Some(TRAPPIST1_TOML@)
    } else if name == "kozai"@ {
        Some(KOZAI_TOML@)
    } else if name == "ptolemaic"@ {
        Some(PTOLEMAIC_TOML@)
    } else if name == "retrograde"@ {
        Some(RETROGRADE_TOML@)
    } else {
        None
    }
}

/// Looks up a bundled scenario's TOML by name.
pub fn scenario_toml(name: &str) -> (r: Option<&'static str>)
    ensures
        match r {
            Some(t) => bundled_toml(name@) == Some(t@),
            None => bundled_toml(name@) is None,
        },
        r is Some <==> bundled_names().contains(name@),
{
    proof {
        assert(bundled_names()[0] == "solar"@);
        assert(bundled_names()[1] == "jupiter"@);
        assert(bundled_names()[2] == "saturn"@);
        assert(bundled_names()[3] == "pluto-charon"@);
        assert(bundled_names()[4] == "earth-moon"@);
        assert(bundled_names()[5] == "pythagorean"@);
        assert(bundled_names()[6] == "flyby"@);
        assert(bundled_names()[7] == "unstable"@);
        assert(bundled_names()[8] == "trappist1"@);
        assert(bundled_names()[9] == "kozai"@);
        assert(bundled_names()[10] == "ptolemaic"@);
        assert(bundled_names()[11] == "retrograde"@);
    }
    if str_eq(name, "solar") {
        Some(SOLAR_TOML)
    } else if str_eq(name, "jupiter") {
        Some(JUPITER_TOML)
    } else if str_eq(name, "saturn") {
        Some(SATURN_TOML)
    } else if str_eq(name, "pluto-charon") {
        Some(PLUTO_CHARON_TOML)
    } else if str_eq(name, "earth-moon") {
        Some(EARTH_MOON_TOML)
    } else if str_eq(name, "pythagorean") {
        Some(PYTHAGOREAN_TOML)
    } else if str_eq(name, "flyby") {
        Some(FLYBY_TOML)
    } else if str_eq(name, "unstable") {
        Some(UNSTABLE_TOML)
    } else if str_eq(name, "trappist1") {
        Some(TRAPPIST1_TOML)
    } else if str_eq(name, "kozai") {
        Some(KOZAI_TOML)
    } else if str_eq(name, "ptolemaic") {
        Some(PTOLEMAIC_TOML)
    } else if str_eq(name, "retrograde") {
        Some(RETROGRADE_TOML)
    } else {
        None
    }
}

/// The bundled scenarios' names, in the order in which they are listed.
pub fn scenario_names() -> (v: Vec<&'static str>)
    ensures
        v@.len() == bundled_names().len(),
        forall|i: int| 0 <= i < v@.len() ==> (#[trigger] v@[i])@ == bundled_names()[i],
{
    let v: Vec<&'static str> = vec![
        "solar", "jupiter", "saturn", "pluto-charon", "earth-moon", "pythagorean", "flyby", "unstable", "trappist1", "kozai", "ptolemaic", "retrograde",
    ];
    v
}

/// The bundled TOML texts, in the order of `bundled_names`.
pub open spec fn bundled_texts() -> Seq<Seq<char>> {
    seq![
        SOLAR_TOML@,
        JUPITER_TOML@,
        SATURN_TOML@,
        PLUTO_CHARON_TOML@,
        EARTH_MOON_TOML@,
        PYTHAGOREAN_TOML@,
        FLYBY_TOML@,
        UNSTABLE_TOML@,
        TRAPPIST1_TOML@,
        KOZAI_TOML@,
        PTOLEMAIC_TOML@,
        RETROGRADE_TOML@,
    ]
}

/// Every bundled name gives its own scenario text (the one listed at its
/// place), no two bundled names are the same, and no other name gives a
/// text.
pub proof fn lemma_bundled_names_own_texts()
    ensures
        bundled_texts().len() == bundled_names().len(),
        forall|i: int|
            0 <= i < bundled_names().len() ==> #[trigger] bundled_toml(bundled_names()[i]) == Some(
                bundled_texts()[i],
            ),
        forall|i: int, j: int|
            0 <= i < j < bundled_names().len() ==> #[trigger] bundled_names()[i] != #[trigger] bundled_names()[j],
        forall|n: Seq<char>| #[trigger] bundled_toml(n) is Some <==> bundled_names().contains(n),
{
    reveal_strlit("solar");
    reveal_strlit("jupiter");
    reveal_strlit("saturn");
    reveal_strlit("pluto-charon");
    reveal_strlit("earth-moon");
    reveal_strlit("pythagorean");
    reveal_strlit("flyby");
    reveal_strlit("unstable");
    reveal_strlit("trappist1");
    reveal_strlit("kozai");
    reveal_strlit("ptolemaic");
    reveal_strlit("retrograde");
    let ns = bundled_names();
    let ts = bundled_texts();
    assert forall|i: int, j: int| 0 <= i < j < ns.len() implies #[trigger] ns[i] != #[trigger] ns[j] by {
        assert(ns[i].len() != ns[j].len() || ns[i][0] != ns[j][0]);
    }
    assert forall|i: int| 0 <= i < ns.len() implies #[trigger] bundled_toml(ns[i]) == Some(ts[i]) by {
        assert forall|j: int| 0 <= j < i implies ns[j] != ns[i] by {
            assert(ns[i].len() != ns[j].len() || ns[i][0] != ns[j][0]);
        }
    }
    assert forall|n: Seq<char>| #[trigger] bundled_toml(n) is Some <==> ns.contains(n) by {
        if bundled_toml(n) is Some {
            if n == "solar"@ {
                assert(ns[0] == n);
            }
            if n == "jupiter"@ {
                assert(ns[1] == n);
            }
            if n == "saturn"@ {
                assert(ns[2] == n);
            }
            if n == "pluto-charon"@ {
                assert(ns[3] == n);
            }
            if n == "earth-moon"@ {
                assert(ns[4] == n);
            }
            if n == "pythagorean"@ {
                assert(ns[5] == n);
            }
            if n == "flyby"@ {
                assert(ns[6] == n);
            }
            if n == "unstable"@ {
                assert(ns[7] == n);
            }
            if n == "trappist1"@ {
                assert(ns[8] == n);
            }
            if n == "kozai"@ {
                assert(ns[9] == n);
            }
            if n == "ptolemaic"@ {
                assert(ns[10] == n);
            }
            if n == "retrograde"@ {
                assert(ns[11] == n);
            }
        }
    }
}

} // verus!
