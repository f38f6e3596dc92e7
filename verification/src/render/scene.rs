//! Presentation choices for drawing the world: the reference frame
//! (`Representation`), how body discs are filled (`Fill`), and body colours.

use vstd::prelude::*;

use crate::render::cell::Color;
use crate::render::scale::ScaleMode;
use crate::sim::body::{find_name, first_named, names_of, Kind};
use crate::text::str_eq;

verus! {

/// Reference frame / framing, orthogonal to the scale mode.
#[derive(Clone, Copy, Debug, PartialEq, Eq, Structural)]
pub enum Representation {
    Heliocentric,
    Geocentric,
    TopDown,
    Helical,
    Synodic,
    /// The debunked "vortex" picture: the Sun drifts straight along the
    /// ecliptic normal with a corkscrew weave.
    Vortex,
}

impl Representation {
    pub open spec fn spec_name(self) -> Seq<char> {
        match self {
            Representation::Heliocentric => "heliocentric"@,
            Representation::Geocentric => "geocentric"@,
            Representation::TopDown => "top-down"@,
            Representation::Helical => "helical"@,
            Representation::Synodic => "co-rotating"@,
            Representation::Vortex => "vortex"@,
        }
    }

    /// The name shown in the status bar.
    pub fn name(self) -> (s: &'static str)
        ensures
            s@ == self.spec_name(),
    {
        match self {
            Representation::Heliocentric => "heliocentric",
            Representation::Geocentric => "geocentric",
            Representation::TopDown => "top-down",
            Representation::Helical => "helical",
            Representation::Synodic => "co-rotating",
            Representation::Vortex => "vortex",
        }
    }

    /// The representation a scenario or command names; `topdown` and
    /// `synodic` are accepted as aliases.
    pub open spec fn spec_from_name(s: Seq<char>) -> Option<Representation> {
        if s == "heliocentric"@ {
            Some(Representation::Heliocentric)
        } else if s == "top-down"@ || s == "topdown"@ {
            Some(Representation::TopDown)
        } else if s == "geocentric"@ {
            Some(Representation::Geocentric)
        } else if s == "co-rotating"@ || s == "synodic"@ {
            Some(Representation::Synodic)
        } else if s == "helical"@ {
            Some(Representation::Helical)
        } else if s == "vortex"@ {
            Some(Representation::Vortex)
        } else {
            None
        }
    }

    /// The representation named by `s`, if any.
    pub fn from_name(s: &str) -> (r: Option<Representation>)
        ensures
            r == Self::spec_from_name(s@),
    {
        if str_eq(s, "heliocentric") {
            Some(Representation::Heliocentric)
        } else if str_eq(s, "top-down") || str_eq(s, "topdown") {
            Some(Representation::TopDown)
        } else if str_eq(s, "geocentric") {
            Some(Representation::Geocentric)
        } else if str_eq(s, "co-rotating") || str_eq(s, "synodic") {
            Some(Representation::Synodic)
        } else if str_eq(s, "helical") {
            Some(Representation::Helical)
        } else if str_eq(s, "vortex") {
            Some(Representation::Vortex)
        } else {
            None
        }
    }

    /// The next representation in the `c` key's order: heliocentric →
    /// top-down → geocentric → co-rotating → helical → vortex →
    /// heliocentric.
    pub open spec fn spec_cycle(self) -> Representation {
        match self {
            Representation::Heliocentric => Representation::TopDown,
            Representation::TopDown => Representation::Geocentric,
            Representation::Geocentric => Representation::Synodic,
            Representation::Synodic => Representation::Helical,
            Representation::Helical => Representation::Vortex,
            Representation::Vortex => Representation::Heliocentric,
        }
    }

    /// The next representation in the `c` key's order.
    pub fn cycle(self) -> (r: Representation)
        ensures
            r == self.spec_cycle(),
    {
        match self {
            Representation::Heliocentric => Representation::TopDown,
            Representation::TopDown => Representation::Geocentric,
            Representation::Geocentric => Representation::Synodic,
            Representation::Synodic => Representation::Helical,
            Representation::Helical => Representation::Vortex,
            Representation::Vortex => Representation::Heliocentric,
        }
    }

    /// Whether the camera looks straight down onto the ecliptic.
    pub fn is_topdown(self) -> (b: bool)
        ensures
            b == (self == Representation::TopDown),
    {
        match self {
            Representation::TopDown => true,
            _ => false,
        }
    }
}

/// Naming a representation and reading the name back gives it again.
pub proof fn lemma_representation_name_round_trip(r: Representation)
    ensures
        Representation::spec_from_name(r.spec_name()) == Some(r),
{
    reveal_strlit("heliocentric");
    reveal_strlit("top-down");
    reveal_strlit("topdown");
    reveal_strlit("geocentric");
    reveal_strlit("co-rotating");
    reveal_strlit("synodic");
    reveal_strlit("helical");
    reveal_strlit("vortex");
    let n = r.spec_name();
    match r {
        Representation::Heliocentric => {},
        Representation::TopDown => {
            assert(n[0] != "heliocentric"@[0]);
        },
        Representation::Geocentric => {
            assert(n[0] != "heliocentric"@[0] && n[0] != "top-down"@[0] && n[0] != "topdown"@[0]);
        },
        Representation::Synodic => {
            assert(n[0] != "heliocentric"@[0] && n[0] != "top-down"@[0] && n[0] != "topdown"@[0]
                && n[0] != "geocentric"@[0]);
        },
        Representation::Helical => {
            assert(n.len() != "heliocentric"@.len() && n[0] != "top-down"@[0] && n[0] != "topdown"@[0]
                && n[0] != "geocentric"@[0] && n[0] != "co-rotating"@[0] && n[0] != "synodic"@[0]);
        },
        Representation::Vortex => {
            assert(n[0] != "heliocentric"@[0] && n[0] != "top-down"@[0] && n[0] != "topdown"@[0]
                && n[0] != "geocentric"@[0] && n[0] != "co-rotating"@[0] && n[0] != "synodic"@[0]
                && n[0] != "helical"@[0]);
        },
    }
}

/// Pressing the representation key six times returns to the start, and the
/// six steps visit every representation once.
pub proof fn lemma_representation_cycle(r: Representation)
    ensures
        r.spec_cycle().spec_cycle().spec_cycle().spec_cycle().spec_cycle().spec_cycle() == r,
        r != r.spec_cycle(),
        r != r.spec_cycle().spec_cycle(),
        r != r.spec_cycle().spec_cycle().spec_cycle(),
        r != r.spec_cycle().spec_cycle().spec_cycle().spec_cycle(),
        r != r.spec_cycle().spec_cycle().spec_cycle().spec_cycle().spec_cycle(),
{
}

/// How a body's sphere is drawn.
#[derive(Clone, Copy, Debug, PartialEq, Eq, Structural)]
pub enum Fill {
    /// Shaded half-blocks in the double-height pixel layer (default).
    Blocks,
    /// Brightness-ramp glyphs at cell resolution.
    Ascii,
    /// The body's own name tiled over the disc.
    Text,
}

impl Fill {
    pub open spec fn spec_name(self) -> Seq<char> {
        match self {
            Fill::Blocks => "blocks"@,
            Fill::Ascii => "ascii"@,
            Fill::Text => "text"@,
        }
    }

    /// The fill's name.
    pub fn name(self) -> (s: &'static str)
        ensures
            s@ == self.spec_name(),
    {
        match self {
            Fill::Blocks => "blocks",
            Fill::Ascii => "ascii",
            Fill::Text => "text",
        }
    }

    pub open spec fn spec_from_name(s: Seq<char>) -> Option<Fill> {
        if s == "blocks"@ {
            Some(Fill::Blocks)
        } else if s == "ascii"@ {
            Some(Fill::Ascii)
        } else if s == "text"@ {
            Some(Fill::Text)
        } else {
            None
        }
    }

    /// The fill named by `s`, if any.
    pub fn from_name(s: &str) -> (f: Option<Fill>)
        ensures
            f == Self::spec_from_name(s@),
    {
        if str_eq(s, "blocks") {
            Some(Fill::Blocks)
        } else if str_eq(s, "ascii") {
            Some(Fill::Ascii)
        } else if str_eq(s, "text") {
            Some(Fill::Text)
        } else {
            None
        }
    }

    /// blocks → ascii → text → blocks.
    pub open spec fn spec_cycle(self) -> Fill {
        match self {
            Fill::Blocks => Fill::Ascii,
            Fill::Ascii => Fill::Text,
            Fill::Text => Fill::Blocks,
        }
    }

    /// The next fill: blocks → ascii → text → blocks.
    pub fn cycle(self) -> (f: Fill)
        ensures
            f == self.spec_cycle(),
    {
        match self {
            Fill::Blocks => Fill::Ascii,
            Fill::Ascii => Fill::Text,
            Fill::Text => Fill::Blocks,
        }
    }
}

/// Naming a fill and reading the name back gives it again.
pub proof fn lemma_fill_name_round_trip(f: Fill)
    ensures
        Fill::spec_from_name(f.spec_name()) == Some(f),
{
    reveal_strlit("blocks");
    reveal_strlit("ascii");
    reveal_strlit("text");
    let n = f.spec_name();
    match f {
        Fill::Blocks => {},
        Fill::Ascii => {
            assert(n[0] != "blocks"@[0]);
        },
        Fill::Text => {
            assert(n[0] != "blocks"@[0] && n[0] != "ascii"@[0]);
        },
    }
}

/// Cycling the fill three times returns to the start, visiting all three.
pub proof fn lemma_fill_cycle(f: Fill)
    ensures
        f.spec_cycle().spec_cycle().spec_cycle() == f,
        f != f.spec_cycle(),
        f != f.spec_cycle().spec_cycle(),
{
}

/// Base colour of a body: the Sun and planets have their own, anything
/// else is coloured by kind.
pub open spec fn spec_body_color(name: Seq<char>, kind: Kind) -> Color {
    if name == "Sun"@ {
        Color::Rgb { r: 255, g: 220, b: 90 }
    } else if name == "Mercury"@ {
        Color::Rgb { r: 170, g: 160, b: 150 }
    } else if name == "Venus"@ {
        Color::Rgb { r: 220, g: 190, b: 120 }
    } else if name == "Earth"@ {
        Color::Rgb { r: 90, g: 150, b: 235 }
    } else if name == "Mars"@ {
        Color::Rgb { r: 210, g: 100, b: 60 }
    } else if name == "Jupiter"@ {
        Color::Rgb { r: 210, g: 170, b: 120 }
    } else if name == "Saturn"@ {
        Color::Rgb { r: 225, g: 200, b: 140 }
    } else if name == "Uranus"@ {
        Color::Rgb { r: 140, g: 220, b: 220 }
    } else if name == "Neptune"@ {
        Color::Rgb { r: 90, g: 120, b: 230 }
    } else {
        match kind {
            Kind::Star => Color::Rgb { r: 255, g: 240, b: 200 },
            Kind::Moon => Color::Rgb { r: 180, g: 180, b: 180 },
            _ => Color::Rgb { r: 160, g: 200, b: 160 },
        }
    }
}

/// Base colour of the body named `name` of the given kind.
pub fn body_color(name: &str, kind: Kind) -> (c: Color)
    ensures
        c == spec_body_color(name@, kind),
{
    if str_eq(name, "Sun") {
        Color::Rgb { r: 255, g: 220, b: 90 }
    } else if str_eq(name, "Mercury") {
        Color::Rgb { r: 170, g: 160, b: 150 }
    } else if str_eq(name, "Venus") {
        Color::Rgb { r: 220, g: 190, b: 120 }
    } else if str_eq(name, "Earth") {
        Color::Rgb { r: 90, g: 150, b: 235 }
    } else if str_eq(name, "Mars") {
        Color::Rgb { r: 210, g: 100, b: 60 }
    } else if str_eq(name, "Jupiter") {
        Color::Rgb { r: 210, g: 170, b: 120 }
    } else if str_eq(name, "Saturn") {
        Color::Rgb { r: 225, g: 200, b: 140 }
    } else if str_eq(name, "Uranus") {
        Color::Rgb { r: 140, g: 220, b: 220 }
    } else if str_eq(name, "Neptune") {
        Color::Rgb { r: 90, g: 120, b: 230 }
    } else {
        match kind {
            Kind::Star => Color::Rgb { r: 255, g: 240, b: 200 },
            Kind::Moon => Color::Rgb { r: 180, g: 180, b: 180 },
            _ => Color::Rgb { r: 160, g: 200, b: 160 },
        }
    }
}

/// The body a representation re-centres or rotates on: Earth for the
/// geocentric frame, the selected body (unless it is a star) for the
/// co-rotating one, none otherwise.
pub open spec fn spec_reference_index(
    rep: Representation,
    names: Seq<Seq<char>>,
    kinds: Seq<Kind>,
    selected: usize,
) -> Option<int> {
    match rep {
        Representation::Geocentric => first_named(names, "Earth"@),
        Representation::Synodic => if selected < kinds.len() && kinds[selected as int] != Kind::Star {
            Some(selected as int)
        } else {
            None
        },
        _ => None,
    }
}

/// The reference body of `rep` among bodies with these names and kinds.
pub fn reference_index(rep: Representation, names: &Vec<String>, kinds: &Vec<Kind>, selected: usize) -> (r: Option<
    usize,
>)
    ensures
        match r {
            Some(i) => spec_reference_index(rep, names_of(names@), kinds@, selected) == Some(i as int),
            None => spec_reference_index(rep, names_of(names@), kinds@, selected) is None,
        },
{
    match rep {
        Representation::Geocentric => find_name(names, "Earth"),
        Representation::Synodic => {
            if selected < kinds.len() && kinds[selected] != Kind::Star {
                Some(selected)
            } else {
                None
            }
        },
        _ => None,
    }
}

/// Whether trail point `i` of `n` (oldest first) is drawn: the older three
/// quarters of a trail show every other point, the newest quarter all.
pub open spec fn spec_trail_point_shown(i: int, n: int) -> bool {
    !(i % 2 == 0 && i < n * 3 / 4)
}

/// Whether trail point `i` of `n` is drawn.
pub fn trail_point_shown(i: usize, n: usize) -> (b: bool)
    requires
        n <= usize::MAX / 3,
    ensures
        b == spec_trail_point_shown(i as int, n as int),
{
    !(i % 2 == 0 && i < n * 3 / 4)
}

/// Whether a body gets a name label: only with chrome on, and then every
/// body but the moons, unless the scale mode labels all or the moon is the
/// selected body.
pub open spec fn spec_shows_label(chrome: bool, mode: ScaleMode, kind: Kind, is_selected: bool) -> bool {
    chrome && (mode == ScaleMode::Educational || kind != Kind::Moon || is_selected)
}

/// Whether a body gets a name label.
pub fn shows_label(chrome: bool, mode: ScaleMode, kind: Kind, is_selected: bool) -> (b: bool)
    ensures
        b == spec_shows_label(chrome, mode, kind, is_selected),
{
    chrome && (mode.labels_all() || kind != Kind::Moon || is_selected)
}

/// For point `i` of a trail of `n` points (oldest first), the point of the
/// same age in a reference trail of `ref_len` points: as many points from its
/// newest end; `None` when the reference trail is shorter.
pub open spec fn spec_aligned_trail_index(i: int, n: int, ref_len: int) -> Option<int> {
    let back = n - 1 - i;
    if ref_len > back {
        Some(ref_len - 1 - back)
    } else {
        None
    }
}

/// The point of the reference trail with the same age as point `i` of `n`.
pub fn aligned_trail_index(i: usize, n: usize, ref_len: usize) -> (r: Option<usize>)
    requires
        i < n,
    ensures
        match r {
            Some(k) => spec_aligned_trail_index(i as int, n as int, ref_len as int) == Some(k as int)
                && k < ref_len,
            None => spec_aligned_trail_index(i as int, n as int, ref_len as int) is None,
        },
{
    let back = n - 1 - i;
    if ref_len > back {
        Some(ref_len - 1 - back)
    } else {
        None
    }
}

} // verus!
