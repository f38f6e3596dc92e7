//! The scenario file's settings sections and the defaults that fill in what a
//! file leaves out. Sections that hold physical quantities are read by the
//! program around this library; the defaults here are the scenario format's.

use vstd::prelude::*;

verus! {

/// The scale mode a scenario gets when its `[render]` section names none.
pub fn default_scale() -> (s: String)
    ensures
        s@ == "compressed"@,
{
    "compressed".to_owned()
}

/// The trail length a scenario gets when its `[render]` section names none.
pub fn default_trail() -> (n: usize)
    ensures
        n == 2000,
{
    2000
}

/// Labels are shown unless a scenario turns them off.
pub fn default_show_labels() -> (b: bool)
    ensures
        b,
{
    true
}

/// The fill a scenario gets when its `[render]` section names none.
pub fn default_fill() -> (s: String)
    ensures
        s@ == "blocks"@,
{
    "blocks".to_owned()
}

/// The representation a scenario gets when its `[render]` section names none.
pub fn default_representation() -> (s: String)
    ensures
        s@ == "heliocentric"@,
{
    "heliocentric".to_owned()
}

/// The kind a body gets when its entry names none.
pub fn default_kind() -> (s: String)
    ensures
        s@ == "planet"@,
{
    "planet".to_owned()
}

/// The integration substeps per frame when `[simulation]` names none.
pub fn default_substeps() -> (n: u32)
    ensures
        n == 4,
{
    4
}

/// The `[render]` section.
#[derive(Clone, Debug)]
pub struct Render {
    pub scale: String,
    pub trail_length: usize,
    pub show_labels: bool,
    pub fill: String,
    pub representation: String,
}

impl Default for Render {
    /// A missing `[render]` section: every field at its default.
    fn default() -> (r: Self)
        ensures
            r.scale@ == "compressed"@,
            r.trail_length == 2000,
            r.show_labels,
            r.fill@ == "blocks"@,
            r.representation@ == "heliocentric"@,
    {
        Render {
            scale: default_scale(),
            trail_length: default_trail(),
            show_labels: default_show_labels(),
            fill: default_fill(),
            representation: default_representation(),
        }
    }
}

/// The `[trace]` section. An empty mode means the section named none.
#[derive(Clone, Debug)]
pub struct Trace {
    pub mode: String,
    pub show_on_load: bool,
    pub show_on_spawn: bool,
}

impl Default for Trace {
    /// A missing `[trace]` section: no mode, and no automatic traces.
    fn default() -> (t: Self)
        ensures
            t.mode@.len() == 0,
            !t.show_on_load,
            !t.show_on_spawn,
    {
        Trace { mode: String::new(), show_on_load: false, show_on_spawn: false }
    }
}

/// The `[relativity]` section. A missing section leaves relativity off.
#[derive(Clone, Debug)]
pub struct Relativity {
    pub enabled: bool,
    /// The only model there is, `1pn_schwarzschild`, when named.
    pub model: Option<String>,
    /// The body whose field bends the orbits; the most massive when absent.
    pub source: Option<String>,
    /// The bodies the correction applies to; all but the source when empty.
    pub targets: Vec<String>,
}

impl Default for Relativity {
    /// A missing `[relativity]` section: off, with nothing named.
    fn default() -> (r: Self)
        ensures
            !r.enabled,
            r.model is None,
            r.source is None,
            r.targets@.len() == 0,
    {
        Relativity { enabled: false, model: None, source: None, targets: Vec::new() }
    }
}

} // verus!
