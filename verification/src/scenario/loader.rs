//! The rules that turn a parsed scenario into a simulation plan: which body
//! orbits which, where the golden-angle spreads fall, which errors a scenario
//! is refused with, and the presentation settings a load hands on.

use vstd::prelude::*;

use crate::scenario::schema::{Relativity, Render, Trace};
use crate::scenario::bundled::{bundled_names, bundled_toml, scenario_names, scenario_toml, SOLAR_TOML};
use crate::sim::body::{find_name, first_named, lemma_first_named, names_of};
use crate::text::{push_str, str_eq};

verus! {

/// What the loader reads of one `[[bodies]]` entry, beside its numbers.
#[derive(Clone, Debug)]
pub struct BodyShape {
    pub name: String,
    pub kind: String,
    pub parent: Option<String>,
    /// The entry gives an `eccentricity`: it is placed from Keplerian elements.
    pub keplerian: bool,
    /// The entry gives an explicit `position`.
    pub has_position: bool,
    /// The entry gives a `distance` greater than zero.
    pub positive_distance: bool,
}

/// How one body is to be placed.
#[derive(Clone, Copy, Debug, PartialEq, Eq, Structural)]
pub struct BodyPlan {
    /// For a Keplerian body, the body whose mass is the central mass: its
    /// parent, else the first star. `None` there means a central mass of zero.
    pub central: Option<usize>,
    /// For a Keplerian body, its place among the Keplerian bodies (spreads the
    /// mean anomaly when the entry gives none).
    pub kepler_index: Option<u32>,
    /// For a body placed on the ecliptic from its distance alone, its place
    /// among such bodies (the golden-angle rotation of its state).
    pub phase_index: Option<u32>,
    /// The body whose position and velocity are added to this one's.
    pub parent: Option<usize>,
}

/// The entries' names.
pub open spec fn shape_names(s: Seq<BodyShape>) -> Seq<Seq<char>> {
    Seq::new(s.len(), |i: int| s[i].name@)
}

/// An entry placed from its distance and speed and spread by the golden angle:
/// not Keplerian, no explicit position, no parent, a positive distance.
pub open spec fn is_phased(b: BodyShape) -> bool {
    &&& !b.keplerian
    &&& !b.has_position
    &&& b.parent is None
    &&& b.positive_distance
}

/// How many of the first `i` entries are Keplerian.
pub open spec fn count_keplerian(s: Seq<BodyShape>, i: int) -> nat
    decreases i,
{
    if i <= 0 {
        0
    } else {
        count_keplerian(s, i - 1) + if s[i - 1].keplerian {
            1nat
        } else {
            0nat
        }
    }
}

/// How many of the first `i` entries are phased.
pub open spec fn count_phased(s: Seq<BodyShape>, i: int) -> nat
    decreases i,
{
    if i <= 0 {
        0
    } else {
        count_phased(s, i - 1) + if is_phased(s[i - 1]) {
            1nat
        } else {
            0nat
        }
    }
}

/// The first entry at or after `from` whose kind is `star`.
pub open spec fn first_star_from(s: Seq<BodyShape>, from: int) -> Option<int>
    decreases s.len() - from,
{
    if from < 0 || from >= s.len() {
        None
    } else if s[from].kind@ == "star"@ {
        Some(from)
    } else {
        first_star_from(s, from + 1)
    }
}

/// An index as a `usize`.
pub open spec fn as_index(o: Option<int>) -> Option<usize> {
    match o {
        Some(k) => Some(k as usize),
        None => None,
    }
}

/// The first Keplerian entry at or after `from` whose parent no entry is
/// named after, reported as `unknown parent '<p>'`.
pub open spec fn kepler_parent_error_from(s: Seq<BodyShape>, from: int) -> Option<Seq<char>>
    decreases s.len() - from,
{
    if from < 0 || from >= s.len() {
        None
    } else if s[from].keplerian && s[from].parent is Some && first_named(
        shape_names(s),
        s[from].parent->0@,
    ) is None {
        Some("unknown parent '"@ + s[from].parent->0@ + "'"@)
    } else {
        kepler_parent_error_from(s, from + 1)
    }
}

/// The first entry at or after `from` whose parent is unknown or comes after
/// it, with the message it is refused with.
pub open spec fn order_error_from(s: Seq<BodyShape>, from: int) -> Option<Seq<char>>
    decreases s.len() - from,
{
    if from < 0 || from >= s.len() {
        None
    } else if s[from].parent is Some {
        let p = s[from].parent->0@;
        match first_named(shape_names(s), p) {
            None => Some(
                "body '"@ + s[from].name@ + "' references unknown parent '"@ + p + "'"@,
            ),
            Some(q) => if q >= from {
                Some("parent '"@ + p + "' must be defined before child '"@ + s[from].name@ + "'"@)
            } else {
                order_error_from(s, from + 1)
            },
        }
    } else {
        order_error_from(s, from + 1)
    }
}

/// Why the entries cannot be placed, if they cannot: Keplerian entries are
/// checked first, in order, then every entry's parent, in order.
pub open spec fn plan_error(s: Seq<BodyShape>) -> Option<Seq<char>> {
    match kepler_parent_error_from(s, 0) {
        Some(m) => Some(m),
        None => order_error_from(s, 0),
    }
}

/// The plan for entry `i`.
pub open spec fn planned(s: Seq<BodyShape>, i: int) -> BodyPlan {
    let b = s[i];
    BodyPlan {
        central: if b.keplerian {
            match b.parent {
                Some(p) => as_index(first_named(shape_names(s), p@)),
                None => as_index(first_star_from(s, 0)),
            }
        } else {
            None
        },
        kepler_index: if b.keplerian {
            Some(count_keplerian(s, i) as u32)
        } else {
            None
        },
        phase_index: if is_phased(b) {
            Some(count_phased(s, i) as u32)
        } else {
            None
        },
        parent: match b.parent {
            Some(p) => as_index(first_named(shape_names(s), p@)),
            None => None,
        },
    }
}

proof fn lemma_counts_bounded(s: Seq<BodyShape>, i: int)
    requires
        0 <= i,
    ensures
        count_keplerian(s, i) <= i,
        count_phased(s, i) <= i,
    decreases i,
{
    if i > 0 {
        lemma_counts_bounded(s, i - 1);
    }
}

/// The names of the entries, in order.
fn entry_names(shapes: &Vec<BodyShape>) -> (names: Vec<String>)
    ensures
        names_of(names@) == shape_names(shapes@),
{
    let mut names: Vec<String> = Vec::new();
    let mut i: usize = 0;
    while i < shapes.len()
        invariant
            i <= shapes@.len(),
            names@.len() == i,
            forall|j: int| 0 <= j < i ==> (#[trigger] names@[j])@ == shapes@[j].name@,
        decreases shapes@.len() - i,
    {
        names.push(shapes[i].name.clone());
        i += 1;
    }
    assert(names_of(names@) =~= shape_names(shapes@));
    names
}

/// The index of the first entry of kind `star`.
fn find_star(shapes: &Vec<BodyShape>) -> (r: Option<usize>)
    ensures
        r == as_index(first_star_from(shapes@, 0)),
{
    let mut i: usize = 0;
    while i < shapes.len()
        invariant
            i <= shapes@.len(),
            first_star_from(shapes@, 0) == first_star_from(shapes@, i as int),
        decreases shapes@.len() - i,
    {
        if str_eq(shapes[i].kind.as_str(), "star") {
            return Some(i);
        }
        i += 1;
    }
    None
}

/// Plans the placement of every body of a scenario, or says why the scenario
/// is refused: a Keplerian body whose parent no body is named after
/// (`unknown parent '<p>'`), then a body whose parent is unknown
/// (`body '<b>' references unknown parent '<p>'`) or comes later in the file
/// (`parent '<p>' must be defined before child '<b>'`).
pub fn plan_bodies(shapes: &Vec<BodyShape>) -> (r: Result<Vec<BodyPlan>, String>)
    requires
        shapes@.len() <= u32::MAX,
    ensures
        match r {
            Err(m) => plan_error(shapes@) == Some(m@),
            Ok(plans) => {
                &&& plan_error(shapes@) is None
                &&& plans@.len() == shapes@.len()
                &&& forall|i: int| 0 <= i < plans@.len() ==> #[trigger] plans@[i] == planned(shapes@, i)
            },
        },
{
    let ghost s = shapes@;
    let names = entry_names(shapes);
    let n = shapes.len();

    // Keplerian bodies take their central mass from their parent.
    let mut i: usize = 0;
    while i < n
        invariant
            n == s.len(),
            s == shapes@,
            i <= n,
            names_of(names@) == shape_names(s),
            kepler_parent_error_from(s, 0) == kepler_parent_error_from(s, i as int),
        decreases n - i,
    {
        let shape = &shapes[i];
        if shape.keplerian {
            match &shape.parent {
                Some(p) => {
                    if find_name(&names, p.as_str()).is_none() {
                        let mut m = String::new();
                        push_str(&mut m, "unknown parent '");
                        push_str(&mut m, p.as_str());
                        push_str(&mut m, "'");
                        return Err(m);
                    }
                },
                None => {},
            }
        }
        i += 1;
    }
    assert(kepler_parent_error_from(s, n as int) is None);

    // Every parent is known and comes before its child.
    let mut i: usize = 0;
    while i < n
        invariant
            n == s.len(),
            s == shapes@,
            i <= n,
            names_of(names@) == shape_names(s),
            kepler_parent_error_from(s, 0) is None,
            order_error_from(s, 0) == order_error_from(s, i as int),
        decreases n - i,
    {
        let shape = &shapes[i];
        match &shape.parent {
            Some(p) => {
                match find_name(&names, p.as_str()) {
                    None => {
                        let mut m = String::new();
                        push_str(&mut m, "body '");
                        push_str(&mut m, shape.name.as_str());
                        push_str(&mut m, "' references unknown parent '");
                        push_str(&mut m, p.as_str());
                        push_str(&mut m, "'");
                        return Err(m);
                    },
                    Some(q) => {
                        if q >= i {
                            let mut m = String::new();
                            push_str(&mut m, "parent '");
                            push_str(&mut m, p.as_str());
                            push_str(&mut m, "' must be defined before child '");
                            push_str(&mut m, shape.name.as_str());
                            push_str(&mut m, "'");
                            return Err(m);
                        }
                    },
                }
            },
            None => {},
        }
        i += 1;
    }
    assert(order_error_from(s, n as int) is None);

    let star = find_star(shapes);
    let mut plans: Vec<BodyPlan> = Vec::new();
    let mut kepler_count: u32 = 0;
    let mut phased_count: u32 = 0;
    let mut i: usize = 0;
    while i < n
        invariant
            n == s.len(),
            s == shapes@,
            n <= u32::MAX,
            i <= n,
            names_of(names@) == shape_names(s),
            star == as_index(first_star_from(s, 0)),
            kepler_count == count_keplerian(s, i as int),
            phased_count == count_phased(s, i as int),
            plans@.len() == i,
            forall|j: int| 0 <= j < i ==> #[trigger] plans@[j] == planned(s, j),
        decreases n - i,
    {
        proof {
            lemma_counts_bounded(s, i as int);
        }
        let shape = &shapes[i];
        let parent = match &shape.parent {
            Some(p) => find_name(&names, p.as_str()),
            None => None,
        };
        let central = if shape.keplerian {
            match &shape.parent {
                Some(_) => parent,
                None => star,
            }
        } else {
            None
        };
        let kepler_index = if shape.keplerian {
            let k = kepler_count;
            kepler_count = kepler_count + 1;
            Some(k)
        } else {
            None
        };
        let phased = !shape.keplerian && !shape.has_position && shape.parent.is_none()
            && shape.positive_distance;
        let phase_index = if phased {
            let k = phased_count;
            phased_count = phased_count + 1;
            Some(k)
        } else {
            None
        };
        plans.push(BodyPlan { central, kepler_index, phase_index, parent });
        assert(plans@[i as int] == planned(s, i as int));
        i += 1;
    }
    Ok(plans)
}

proof fn lemma_order_error_from(s: Seq<BodyShape>, from: int, i: int)
    requires
        0 <= from <= i < s.len(),
        order_error_from(s, from) is None,
        s[i].parent is Some,
    ensures
        match first_named(shape_names(s), s[i].parent->0@) {
            Some(q) => q < i,
            None => false,
        },
    decreases i - from,
{
    if from < i {
        if s[from].parent is Some {
            let p = s[from].parent->0@;
            assert(first_named(shape_names(s), p) is Some);
        }
        lemma_order_error_from(s, from + 1, i);
    }
}

/// In a scenario that can be placed, every body's parent is an earlier body
/// that bears the parent's name.
pub proof fn lemma_parent_precedes_child(s: Seq<BodyShape>, i: int)
    requires
        plan_error(s) is None,
        s.len() <= usize::MAX,
        0 <= i < s.len(),
        s[i].parent is Some,
    ensures
        match planned(s, i).parent {
            Some(q) => q < i && s[q as int].name@ == s[i].parent->0@,
            None => false,
        },
{
    lemma_order_error_from(s, 0, i);
    lemma_first_named(shape_names(s), s[i].parent->0@);
    let q = first_named(shape_names(s), s[i].parent->0@)->0;
    assert(shape_names(s)[q] == s[q].name@);
}

proof fn lemma_counts_monotonic(s: Seq<BodyShape>, i: int, j: int)
    requires
        0 <= i <= j,
    ensures
        count_keplerian(s, i) <= count_keplerian(s, j),
        count_phased(s, i) <= count_phased(s, j),
    decreases j - i,
{
    if i < j {
        lemma_counts_monotonic(s, i, j - 1);
    }
}

/// No two Keplerian bodies share a spread index, nor do two phased bodies:
/// the index grows along the file.
pub proof fn lemma_spread_indices_increase(s: Seq<BodyShape>, i: int, j: int)
    requires
        0 <= i < j < s.len(),
        s.len() <= u32::MAX,
    ensures
        s[i].keplerian && s[j].keplerian ==> planned(s, i).kepler_index->0 < planned(s, j).kepler_index->0,
        is_phased(s[i]) && is_phased(s[j]) ==> planned(s, i).phase_index->0 < planned(s, j).phase_index->0,
{
    lemma_counts_monotonic(s, i + 1, j);
    lemma_counts_bounded(s, j);
}

/// What a load hands on besides the world: the presentation settings.
#[derive(Clone, Debug)]
pub struct Presentation {
    pub trail_length: usize,
    pub scale: String,
    pub fill: String,
    pub representation: String,
    pub show_labels: bool,
    pub trace_mode: String,
    pub show_on_load: bool,
    pub show_on_spawn: bool,
}

/// The presentation a scenario's `[render]` and `[trace]` sections give; a
/// trace section that names no mode gets `compact`.
pub fn presentation(render: Render, trace: Trace) -> (p: Presentation)
    ensures
        p.trail_length == render.trail_length,
        p.scale@ == render.scale@,
        p.fill@ == render.fill@,
        p.representation@ == render.representation@,
        p.show_labels == render.show_labels,
        p.trace_mode@ == (if trace.mode@.len() == 0 { "compact"@ } else { trace.mode@ }),
        p.show_on_load == trace.show_on_load,
        p.show_on_spawn == trace.show_on_spawn,
{
    let trace_mode = if trace.mode.as_str().is_empty() {
        "compact".to_owned()
    } else {
        trace.mode
    };
    Presentation {
        trail_length: render.trail_length,
        scale: render.scale,
        fill: render.fill,
        representation: render.representation,
        show_labels: render.show_labels,
        trace_mode,
        show_on_load: trace.show_on_load,
        show_on_spawn: trace.show_on_spawn,
    }
}

/// The `vortex` preset over a Solar load: the vortex view, long trails, and
/// the load trace shown. Nothing else changes.
pub fn vortex_preset(p: Presentation) -> (q: Presentation)
    ensures
        q.representation@ == "vortex"@,
        q.trail_length == 4000,
        q.show_on_load,
        q.scale@ == p.scale@,
        q.fill@ == p.fill@,
        q.show_labels == p.show_labels,
        q.trace_mode@ == p.trace_mode@,
        q.show_on_spawn == p.show_on_spawn,
{
    Presentation { representation: "vortex".to_owned(), trail_length: 4000, show_on_load: true, ..p }
}

/// The names joined with `, `.
pub open spec fn join_names(names: Seq<Seq<char>>) -> Seq<char>
    decreases names.len(),
{
    if names.len() == 0 {
        Seq::empty()
    } else if names.len() == 1 {
        names[0]
    } else {
        join_names(names.drop_last()) + ", "@ + names.last()
    }
}

/// The message a load of an unknown bundled scenario is refused with.
pub open spec fn unknown_scenario_message(name: Seq<char>) -> Seq<char> {
    "unknown scenario '"@ + name + "'. available: "@ + join_names(bundled_names())
}

/// What `load_builtin` reads for `name`: the TOML text, and whether the
/// `vortex` preset goes over it. `vortex` is the Solar dataset under that
/// preset; every other name is a bundled scenario or refused.
pub fn builtin_source(name: &str) -> (r: Result<(&'static str, bool), String>)
    ensures
        name@ == "vortex"@ ==> r == Ok::<(&'static str, bool), String>((SOLAR_TOML, true)),
        name@ != "vortex"@ ==> match r {
            Ok((t, preset)) => !preset && bundled_toml(name@) == Some(t@),
            Err(m) => bundled_toml(name@) is None && m@ == unknown_scenario_message(name@),
        },
{
    if str_eq(name, "vortex") {
        return Ok((SOLAR_TOML, true));
    }
    match scenario_toml(name) {
        Some(t) => Ok((t, false)),
        None => {
            let names = scenario_names();
            let mut m = String::new();
            push_str(&mut m, "unknown scenario '");
            push_str(&mut m, name);
            push_str(&mut m, "'. available: ");
            let ghost head = m@;
            let mut i: usize = 0;
            while i < names.len()
                invariant
                    i <= names@.len(),
                    names@.len() == bundled_names().len(),
                    forall|j: int| 0 <= j < names@.len() ==> (#[trigger] names@[j])@ == bundled_names()[j],
                    m@ == head + join_names(bundled_names().take(i as int)),
                decreases names@.len() - i,
            {
                if i > 0 {
                    push_str(&mut m, ", ");
                }
                push_str(&mut m, names[i]);
                proof {
                    let t = bundled_names().take(i + 1);
                    assert(t.drop_last() =~= bundled_names().take(i as int));
                    assert(t.last() == names@[i as int]@);
                    if i == 0 {
                        assert(bundled_names().take(0) =~= Seq::<Seq<char>>::empty());
                    }
                }
                i += 1;
            }
            assert(bundled_names().take(names@.len() as int) =~= bundled_names());
            Err(m)
        },
    }
}

/// The relativity settings a world starts with.
#[derive(Clone, Debug)]
pub struct GrConfig {
    pub enabled: bool,
    /// The source body's name; empty when relativity is off.
    pub source: String,
    /// The target bodies' names; empty means every body but the source.
    pub targets: Vec<String>,
}

/// The message a scenario naming another relativity model is refused with.
pub open spec fn unknown_model_message(model: Seq<char>) -> Seq<char> {
    "unknown relativity model '"@ + model + "' (only '1pn_schwarzschild')"@
}

/// The relativity settings of a `[relativity]` section, given the name of
/// the most massive body (if there is a body): off when the section does not
/// enable it; otherwise the named model must be `1pn_schwarzschild`, and the
/// source defaults to the most massive body.
pub fn relativity_config(rel: Relativity, heaviest: Option<String>) -> (r: Result<GrConfig, String>)
    ensures
        !rel.enabled ==> (r matches Ok(c) && !c.enabled && c.source@.len() == 0 && c.targets@.len() == 0),
        rel.enabled ==> match rel.model {
            Some(m) if m@ != "1pn_schwarzschild"@ => (r matches Err(e) && e@ == unknown_model_message(m@)),
            _ => (r matches Ok(c) && c.enabled && c.targets@ == rel.targets@ && c.source@ == match rel.source {
                Some(s) => s@,
                None => match heaviest {
                    Some(h) => h@,
                    None => Seq::<char>::empty(),
                },
            }),
        },
{
    if !rel.enabled {
        return Ok(GrConfig { enabled: false, source: String::new(), targets: Vec::new() });
    }
    if let Some(m) = &rel.model {
        if !str_eq(m.as_str(), "1pn_schwarzschild") {
            let mut e = String::new();
            push_str(&mut e, "unknown relativity model '");
            push_str(&mut e, m.as_str());
            push_str(&mut e, "' (only '1pn_schwarzschild')");
            return Err(e);
        }
    }
    let source = match rel.source {
        Some(s) => s,
        None => match heaviest {
            Some(h) => h,
            None => String::new(),
        },
    };
    Ok(GrConfig { enabled: true, source, targets: rel.targets })
}

/// Every index below `n` except `skip`, in order.
pub open spec fn all_but(n: int, skip: int) -> Seq<usize>
    decreases n,
{
    if n <= 0 {
        Seq::empty()
    } else if n - 1 == skip {
        all_but(n - 1, skip)
    } else {
        all_but(n - 1, skip).push((n - 1) as usize)
    }
}

/// The indices of the named targets that exist, in the order named (each
/// name picks its first body).
pub open spec fn named_targets(names: Seq<Seq<char>>, targets: Seq<Seq<char>>) -> Seq<usize>
    decreases targets.len(),
{
    if targets.len() == 0 {
        Seq::empty()
    } else {
        let rest = named_targets(names, targets.drop_last());
        match first_named(names, targets.last()) {
            Some(i) => rest.push(i as usize),
            None => rest,
        }
    }
}

/// The bodies relativity acts on, by index: the source body, and the
/// targets (every other body when none are named).
pub struct GrIndices {
    pub source: usize,
    pub targets: Vec<usize>,
}

/// Resolves the relativity source and targets by name among the bodies'
/// names: `None` when no body bears the source's name.
pub fn resolve_relativity(names: &Vec<String>, source: &str, targets: &Vec<String>) -> (r: Option<GrIndices>)
    ensures
        match r {
            None => first_named(names_of(names@), source@) is None,
            Some(g) => {
                &&& first_named(names_of(names@), source@) == Some(g.source as int)
                &&& g.targets@ == if targets@.len() == 0 {
                    all_but(names@.len() as int, g.source as int)
                } else {
                    named_targets(names_of(names@), names_of(targets@))
                }
            },
        },
{
    let src = match find_name(names, source) {
        Some(i) => i,
        None => return None,
    };
    let mut out: Vec<usize> = Vec::new();
    if targets.len() == 0 {
        let mut j: usize = 0;
        while j < names.len()
            invariant
                j <= names@.len(),
                out@ == all_but(j as int, src as int),
            decreases names@.len() - j,
        {
            if j != src {
                out.push(j);
            }
            j += 1;
        }
    } else {
        let ghost ts = names_of(targets@);
        let mut k: usize = 0;
        while k < targets.len()
            invariant
                k <= targets@.len(),
                ts == names_of(targets@),
                out@ == named_targets(names_of(names@), ts.take(k as int)),
            decreases targets@.len() - k,
        {
            assert(ts.take(k + 1).drop_last() =~= ts.take(k as int));
            assert(ts.take(k + 1).last() == targets@[k as int]@);
            if let Some(i) = find_name(names, targets[k].as_str()) {
                out.push(i);
            }
            k += 1;
        }
        assert(ts.take(targets@.len() as int) =~= ts);
    }
    Some(GrIndices { source: src, targets: out })
}

} // verus!
