//! Scale modes: how real distances and radii are squeezed into render space.

use vstd::prelude::*;

use crate::text::str_eq;

verus! {

/// How real distances and radii map into render space.
#[derive(Clone, Copy, Debug, PartialEq, Eq, Structural)]
pub enum ScaleMode {
    /// Log-radial distances with exaggerated radii (default).
    Compressed,
    /// True proportions.
    Realistic,
    /// Compressed, with every body labelled.
    Educational,
}

impl ScaleMode {
    pub open spec fn spec_name(self) -> Seq<char> {
        match self {
            ScaleMode::Compressed => "compressed"@,
            ScaleMode::Realistic => "realistic"@,
            ScaleMode::Educational => "educational"@,
        }
    }

    /// The mode's name, as `:scale` takes it.
    pub fn name(self) -> (s: &'static str)
        ensures
            s@ == self.spec_name(),
    {
        match self {
            ScaleMode::Compressed => "compressed",
            ScaleMode::Realistic => "realistic",
            ScaleMode::Educational => "educational",
        }
    }

    pub open spec fn spec_from_name(s: Seq<char>) -> Option<ScaleMode> {
        if s == "compressed"@ {
            Some(ScaleMode::Compressed)
        } else if s == "realistic"@ {
            Some(ScaleMode::Realistic)
        } else if s == "educational"@ {
            Some(ScaleMode::Educational)
        } else {
            None
        }
    }

    /// The mode named by `s`, if any.
    pub fn from_name(s: &str) -> (m: Option<ScaleMode>)
        ensures
            m == Self::spec_from_name(s@),
    {
        if str_eq(s, "compressed") {
            Some(ScaleMode::Compressed)
        } else if str_eq(s, "realistic") {
            Some(ScaleMode::Realistic)
        } else if str_eq(s, "educational") {
            Some(ScaleMode::Educational)
        } else {
            None
        }
    }

    /// compressed → realistic → educational → compressed (the `v` key).
    pub open spec fn spec_cycle(self) -> ScaleMode {
        match self {
            ScaleMode::Compressed => ScaleMode::Realistic,
            ScaleMode::Realistic => ScaleMode::Educational,
            ScaleMode::Educational => ScaleMode::Compressed,
        }
    }

    /// The next mode (the `v` key).
    pub fn cycle(self) -> (m: ScaleMode)
        ensures
            m == self.spec_cycle(),
    {
        match self {
            ScaleMode::Compressed => ScaleMode::Realistic,
            ScaleMode::Realistic => ScaleMode::Educational,
            ScaleMode::Educational => ScaleMode::Compressed,
        }
    }

    /// Whether every body is labelled, moons included.
    pub fn labels_all(self) -> (b: bool)
        ensures
            b == (self == ScaleMode::Educational),
    {
        match self {
            ScaleMode::Educational => true,
            _ => false,
        }
    }
}

/// Naming a scale mode and reading the name back gives it again.
pub proof fn lemma_scale_name_round_trip(m: ScaleMode)
    ensures
        ScaleMode::spec_from_name(m.spec_name()) == Some(m),
{
    reveal_strlit("compressed");
    reveal_strlit("realistic");
    reveal_strlit("educational");
    let n = m.spec_name();
    match m {
        ScaleMode::Compressed => {},
        ScaleMode::Realistic => {
            assert(n[0] != "compressed"@[0]);
        },
        ScaleMode::Educational => {
            assert(n[0] != "compressed"@[0] && n[0] != "realistic"@[0]);
        },
    }
}

/// Cycling the scale mode three times returns to the start, visiting all
/// three.
pub proof fn lemma_scale_cycle(m: ScaleMode)
    ensures
        m.spec_cycle().spec_cycle().spec_cycle() == m,
        m != m.spec_cycle(),
        m != m.spec_cycle().spec_cycle(),
{
}

} // verus!
