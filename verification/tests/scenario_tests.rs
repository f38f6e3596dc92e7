//! Bundled scenarios, the scenario defaults, and the placement plan.

use solaris_tty::scenario::bundled::{scenario_names, JUPITER_TOML};
use solaris_tty::scenario::loader::{
    builtin_source, plan_bodies, presentation, vortex_preset, BodyPlan, BodyShape,
};
use solaris_tty::scenario::schema::{
    default_fill, default_kind, default_representation, default_scale, default_show_labels,
    default_substeps, default_trail, Render, Trace,
};
use solaris_tty::sim::body::find_name;
use solaris_tty::{scenario_toml, SOLAR_TOML};

fn shape(name: &str, kind: &str, parent: Option<&str>, keplerian: bool) -> BodyShape {
    BodyShape {
        name: name.to_string(),
        kind: kind.to_string(),
        parent: parent.map(|p| p.to_string()),
        keplerian,
        has_position: false,
        positive_distance: true,
    }
}

#[test]
fn bundled_names_resolve_to_their_toml() {
    assert_eq!(scenario_toml("solar"), Some(SOLAR_TOML));
    assert_eq!(scenario_toml("jupiter"), Some(JUPITER_TOML));
    for name in scenario_names() {
        let text = scenario_toml(name).expect("every listed name is bundled");
        assert!(text.contains("[[bodies]]"), "{name} has bodies");
    }
    assert_eq!(scenario_toml("nope"), None);
    assert_eq!(scenario_toml("vortex"), None);
    assert_eq!(scenario_toml("Solar"), None);
}

#[test]
fn solar_toml_lists_sun_planets_and_moons() {
    let bodies = SOLAR_TOML.matches("[[bodies]]").count();
    assert_eq!(bodies, 17, "Sun + 8 planets + 8 moons");
    assert!(SOLAR_TOML.contains("name = \"Earth\""));
    assert!(SOLAR_TOML.contains("name = \"Moon\""));
}

#[test]
fn scenario_names_are_in_listing_order() {
    assert_eq!(
        scenario_names(),
        vec![
            "solar", "jupiter", "saturn", "pluto-charon", "earth-moon", "pythagorean", "flyby", "unstable", "trappist1",
            "kozai", "ptolemaic", "retrograde",
        ]
    );
}

#[test]
fn vortex_is_solar_under_the_preset() {
    assert_eq!(builtin_source("vortex").unwrap(), (SOLAR_TOML, true));
    assert_eq!(builtin_source("solar").unwrap(), (SOLAR_TOML, false));
    assert_eq!(builtin_source("saturn").unwrap().1, false);
}

#[test]
fn unknown_builtin_lists_the_available_ones() {
    let err = builtin_source("atlantis").unwrap_err();
    assert_eq!(
        err,
        "unknown scenario 'atlantis'. available: solar, jupiter, saturn, pluto-charon, earth-moon, pythagorean, \
         flyby, unstable, trappist1, kozai, ptolemaic, retrograde"
    );
}

#[test]
fn scenario_defaults() {
    assert_eq!(default_scale(), "compressed");
    assert_eq!(default_trail(), 2000);
    assert!(default_show_labels());
    assert_eq!(default_fill(), "blocks");
    assert_eq!(default_representation(), "heliocentric");
    assert_eq!(default_kind(), "planet");
    assert_eq!(default_substeps(), 4);
    let r = Render::default();
    assert_eq!(r.scale, "compressed");
    assert_eq!(r.trail_length, 2000);
    assert!(r.show_labels);
    assert_eq!(r.fill, "blocks");
    assert_eq!(r.representation, "heliocentric");
    let t = Trace::default();
    assert_eq!(t.mode, "");
    assert!(!t.show_on_load);
    assert!(!t.show_on_spawn);
}

#[test]
fn presentation_defaults_trace_mode_to_compact() {
    let p = presentation(Render::default(), Trace::default());
    assert_eq!(p.trace_mode, "compact");
    assert_eq!(p.fill, "blocks");
    assert_eq!(p.representation, "heliocentric");
    assert!(p.show_labels);
    let explicit = Trace { mode: "debug".to_string(), show_on_load: true, show_on_spawn: false };
    let p = presentation(Render::default(), explicit);
    assert_eq!(p.trace_mode, "debug");
    assert!(p.show_on_load);
}

#[test]
fn vortex_preset_changes_only_the_view_trails_and_load_trace() {
    let mut render = Render::default();
    render.fill = "ascii".to_string();
    let p = presentation(render, Trace::default());
    let q = vortex_preset(p);
    assert_eq!(q.representation, "vortex");
    assert_eq!(q.trail_length, 4000);
    assert!(q.show_on_load);
    assert_eq!(q.fill, "ascii");
    assert_eq!(q.scale, "compressed");
    assert_eq!(q.trace_mode, "compact");
    assert!(!q.show_on_spawn);
}

#[test]
fn find_name_returns_the_first_match() {
    let names: Vec<String> = ["Sun", "Earth", "Moon", "Earth"].iter().map(|s| s.to_string()).collect();
    assert_eq!(find_name(&names, "Earth"), Some(1));
    assert_eq!(find_name(&names, "Moon"), Some(2));
    assert_eq!(find_name(&names, "Mars"), None);
    assert_eq!(find_name(&Vec::new(), "Sun"), None);
}

#[test]
fn plan_places_moons_after_parents_with_spread_indices() {
    let shapes = vec![
        shape("Sun", "star", None, false),
        shape("Earth", "planet", Some("Sun"), true),
        shape("Moon", "moon", Some("Earth"), true),
        shape("Rock", "planet", None, false),
        shape("Comet", "planet", None, true),
        shape("Pebble", "debris", None, false),
    ];
    let plans = plan_bodies(&shapes).unwrap();
    assert_eq!(plans.len(), 6);
    // Every shape here has a positive distance, so the Sun is the first
    // body spread by the golden angle.
    assert_eq!(plans[0], BodyPlan { central: None, kepler_index: None, phase_index: Some(0), parent: None });
    assert_eq!(plans[1], BodyPlan { central: Some(0), kepler_index: Some(0), phase_index: None, parent: Some(0) });
    assert_eq!(plans[2], BodyPlan { central: Some(1), kepler_index: Some(1), phase_index: None, parent: Some(1) });
    assert_eq!(plans[3], BodyPlan { central: None, kepler_index: None, phase_index: Some(1), parent: None });
    // A Keplerian body without a parent orbits the first star.
    assert_eq!(plans[4], BodyPlan { central: Some(0), kepler_index: Some(2), phase_index: None, parent: None });
    assert_eq!(plans[5].phase_index, Some(2));
}

#[test]
fn plan_without_star_has_no_central_body() {
    let shapes = vec![shape("A", "planet", None, true), shape("B", "planet", None, true)];
    let plans = plan_bodies(&shapes).unwrap();
    assert_eq!(plans[0].central, None);
    assert_eq!(plans[1].kepler_index, Some(1));
}

#[test]
fn explicit_position_or_zero_distance_is_not_phased() {
    let mut a = shape("A", "planet", None, false);
    a.has_position = true;
    let mut b = shape("B", "planet", None, false);
    b.positive_distance = false;
    let c = shape("C", "planet", None, false);
    let plans = plan_bodies(&vec![a, b, c]).unwrap();
    assert_eq!(plans[0].phase_index, None);
    assert_eq!(plans[1].phase_index, None);
    assert_eq!(plans[2].phase_index, Some(0));
}

#[test]
fn keplerian_body_with_unknown_parent_is_refused_first() {
    let shapes = vec![
        shape("Sun", "star", None, false),
        shape("Lost", "planet", Some("Vulcan"), false),
        shape("Moon", "moon", Some("Nowhere"), true),
    ];
    assert_eq!(plan_bodies(&shapes).unwrap_err(), "unknown parent 'Nowhere'");
}

#[test]
fn unknown_parent_is_refused() {
    let shapes = vec![shape("Sun", "star", None, false), shape("Lost", "planet", Some("Vulcan"), false)];
    assert_eq!(plan_bodies(&shapes).unwrap_err(), "body 'Lost' references unknown parent 'Vulcan'");
}

#[test]
fn parent_after_child_is_refused() {
    let shapes = vec![
        shape("Moon", "moon", Some("Earth"), true),
        shape("Earth", "planet", None, false),
    ];
    assert_eq!(plan_bodies(&shapes).unwrap_err(), "parent 'Earth' must be defined before child 'Moon'");
    // A body that names itself as its parent is refused the same way.
    let own = vec![shape("Loop", "planet", Some("Loop"), false)];
    assert_eq!(plan_bodies(&own).unwrap_err(), "parent 'Loop' must be defined before child 'Loop'");
}

#[test]
fn empty_scenario_plans_nothing() {
    assert_eq!(plan_bodies(&Vec::new()).unwrap(), Vec::<BodyPlan>::new());
}

/// The entries of a bundled scenario as the placement plan reads them.
fn bundled_shapes(text: &str) -> Vec<BodyShape> {
    let doc: toml::Value = toml::from_str(text).expect("bundled TOML parses");
    let bodies = doc.get("bodies").and_then(|b| b.as_array()).expect("bodies array");
    bodies
        .iter()
        .map(|b| BodyShape {
            name: b.get("name").and_then(|v| v.as_str()).unwrap().to_string(),
            kind: b.get("kind").and_then(|v| v.as_str()).unwrap_or("planet").to_string(),
            parent: b.get("parent").and_then(|v| v.as_str()).map(|p| p.to_string()),
            keplerian: b.get("eccentricity").is_some(),
            has_position: b.get("position").is_some(),
            positive_distance: b
                .get("distance")
                .and_then(|v| v.as_float().or_else(|| v.as_integer().map(|i| i as f64)))
                .map(|d| d > 0.0)
                .unwrap_or(false),
        })
        .collect()
}

#[test]
fn all_bundled_scenarios_parse() {
    for name in scenario_names() {
        let shapes = bundled_shapes(scenario_toml(name).unwrap());
        assert!(shapes.len() >= 2, "{name} has at least two bodies");
        let plans = plan_bodies(&shapes).unwrap_or_else(|e| panic!("{name}: {e}"));
        for (i, plan) in plans.iter().enumerate() {
            if let Some(p) = plan.parent {
                assert!(p < i, "{name}: parent of {} comes first", shapes[i].name);
                assert_eq!(Some(&shapes[p].name), shapes[i].parent.as_ref());
            }
        }
    }
}

#[test]
fn solar_moon_orbits_earth_and_planets_orbit_the_sun() {
    let shapes = bundled_shapes(SOLAR_TOML);
    let plans = plan_bodies(&shapes).unwrap();
    let names: Vec<String> = shapes.iter().map(|s| s.name.clone()).collect();
    let sun = find_name(&names, "Sun").unwrap();
    let earth = find_name(&names, "Earth").unwrap();
    let moon = find_name(&names, "Moon").unwrap();
    assert_eq!(sun, 0);
    assert_eq!(plans[earth].parent, Some(sun));
    assert_eq!(plans[earth].central, Some(sun));
    assert_eq!(plans[moon].parent, Some(earth));
    assert_eq!(plans[moon].central, Some(earth));
    // Every Keplerian body has its own spread index, in file order.
    let indices: Vec<u32> = plans.iter().filter_map(|p| p.kepler_index).collect();
    assert_eq!(indices, (0..indices.len() as u32).collect::<Vec<_>>());
}

#[test]
fn solar_toml_parses_and_has_expected_bodies() {
    let doc: toml::Value = toml::from_str(SOLAR_TOML).expect("parse solar.toml");
    let bodies = doc.get("bodies").and_then(|b| b.as_array()).unwrap();
    assert_eq!(bodies.len(), 17, "Sun + 8 planets + 8 moons");
    let shapes = bundled_shapes(SOLAR_TOML);
    let names: Vec<String> = shapes.iter().map(|s| s.name.clone()).collect();
    let earth = find_name(&names, "Earth").expect("Earth present");
    let mass = bodies[earth].get("mass").and_then(|m| m.as_float()).unwrap();
    assert!((mass - 5.9722e24).abs() < 1e20);
}

use solaris_tty::scenario::loader::{relativity_config, resolve_relativity};
use solaris_tty::scenario::schema::Relativity;

#[test]
fn trappist1_has_seven_planets() {
    let shapes = bundled_shapes(scenario_toml("trappist1").unwrap());
    assert_eq!(shapes.len(), 8); // star + 7 planets
    assert_eq!(shapes.iter().filter(|s| s.kind == "star").count(), 1);
}

#[test]
fn ptolemaic_puts_earth_at_the_center_and_heaviest() {
    let doc: toml::Value = toml::from_str(scenario_toml("ptolemaic").unwrap()).unwrap();
    let bodies = doc.get("bodies").and_then(|b| b.as_array()).unwrap();
    let mass = |b: &toml::Value| b.get("mass").and_then(|m| m.as_float()).unwrap();
    let earth = bodies.iter().find(|b| b.get("name").and_then(|n| n.as_str()) == Some("Earth")).unwrap();
    assert_eq!(earth.get("distance").and_then(|d| d.as_float()), Some(0.0));
    assert!(bodies.iter().all(|b| mass(b) <= mass(earth)));
}

#[test]
fn vortex_reuses_canonical_solar_physics() {
    let (vortex_text, preset) = builtin_source("vortex").unwrap();
    let (solar_text, plain) = builtin_source("solar").unwrap();
    assert_eq!(vortex_text, solar_text);
    assert!(preset && !plain);
    let solar = presentation(Render::default(), Trace::default());
    let vortex = vortex_preset(presentation(Render::default(), Trace::default()));
    assert_eq!(vortex.representation, "vortex");
    assert_eq!(solar.representation, "heliocentric");
}

#[test]
fn vortex_scenario_opens_in_corkscrew_view() {
    let loaded = vortex_preset(presentation(Render::default(), Trace::default()));
    assert_eq!(loaded.representation, "vortex");
}

fn rel(enabled: bool, model: Option<&str>, source: Option<&str>, targets: &[&str]) -> Relativity {
    Relativity {
        enabled,
        model: model.map(String::from),
        source: source.map(String::from),
        targets: targets.iter().map(|t| t.to_string()).collect(),
    }
}

#[test]
fn relativity_section_parses_and_defaults_source() {
    let c = relativity_config(rel(true, None, None, &["B"]), Some("S".to_string())).unwrap();
    assert!(c.enabled);
    assert_eq!(c.source, "S");
    assert_eq!(c.targets, vec!["B".to_string()]);
    let off = relativity_config(rel(false, Some("warp_drive"), Some("S"), &["B"]), None).unwrap();
    assert!(!off.enabled);
    assert_eq!(off.source, "");
    assert!(off.targets.is_empty());
    let named = relativity_config(rel(true, Some("1pn_schwarzschild"), Some("Sun"), &[]), Some("X".to_string())).unwrap();
    assert_eq!(named.source, "Sun");
}

#[test]
fn relativity_rejects_unknown_model() {
    let err = relativity_config(rel(true, Some("warp_drive"), None, &[]), None).unwrap_err();
    assert_eq!(err, "unknown relativity model 'warp_drive' (only '1pn_schwarzschild')");
}

#[test]
fn solar_toml_enables_relativity() {
    let doc: toml::Value = toml::from_str(SOLAR_TOML).unwrap();
    let r = doc.get("relativity").unwrap();
    assert_eq!(r.get("enabled").and_then(|v| v.as_bool()), Some(true));
    assert_eq!(r.get("source").and_then(|v| v.as_str()), Some("Sun"));
}

#[test]
fn relativity_resolves_names_to_indices() {
    let names: Vec<String> = ["Sun", "Mercury", "Venus", "Earth"].iter().map(|s| s.to_string()).collect();
    let all = resolve_relativity(&names, "Sun", &Vec::new()).unwrap();
    assert_eq!(all.source, 0);
    assert_eq!(all.targets, vec![1, 2, 3]);
    let picked: Vec<String> = ["Earth", "Pluto", "Mercury"].iter().map(|s| s.to_string()).collect();
    let some = resolve_relativity(&names, "Sun", &picked).unwrap();
    assert_eq!(some.targets, vec![3, 1]);
    let mid = resolve_relativity(&names, "Venus", &Vec::new()).unwrap();
    assert_eq!(mid.targets, vec![0, 1, 3]);
    assert!(resolve_relativity(&names, "Vulcan", &Vec::new()).is_none());
}
