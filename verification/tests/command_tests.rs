//! The `:` command line, read into commands.

use solaris_tty::command::{
    check_spawn_mass,
    parse_command, parse_length, parse_spawn_arg, parse_vector, parse_velocity, Command,
    CommandError, Quantity, SpawnArg, UnitScale,
};
use solaris_tty::sim::body::Kind;

fn chars(s: &str) -> Vec<char> {
    s.chars().collect()
}

fn q(quantity: &Quantity) -> (String, UnitScale) {
    (quantity.number.clone(), quantity.scale)
}

fn error_of(line: &str) -> CommandError {
    match parse_command(line) {
        Err(e) => e,
        Ok(_) => panic!("'{line}' should be refused"),
    }
}

#[test]
fn lengths_take_their_unit_suffix() {
    assert_eq!(q(&parse_length(&chars("1au"))), ("1".to_string(), UnitScale::AstronomicalUnit));
    assert_eq!(q(&parse_length(&chars("3.4e3km"))), ("3.4e3".to_string(), UnitScale::Kilo));
    assert_eq!(q(&parse_length(&chars("250m"))), ("250".to_string(), UnitScale::Unit));
    assert_eq!(q(&parse_length(&chars("6.4e6"))), ("6.4e6".to_string(), UnitScale::Unit));
}

#[test]
fn velocities_take_their_unit_suffix() {
    assert_eq!(q(&parse_velocity(&chars("29.78km/s"))), ("29.78".to_string(), UnitScale::Kilo));
    assert_eq!(q(&parse_velocity(&chars("100m/s"))), ("100".to_string(), UnitScale::Unit));
    assert_eq!(q(&parse_velocity(&chars("5"))), ("5".to_string(), UnitScale::Unit));
}

#[test]
fn vectors_need_three_components() {
    let v = parse_vector(&chars("1au,0,-2km"), true).ok().unwrap();
    assert_eq!(q(&v.x), ("1".to_string(), UnitScale::AstronomicalUnit));
    assert_eq!(q(&v.y), ("0".to_string(), UnitScale::Unit));
    assert_eq!(q(&v.z), ("-2".to_string(), UnitScale::Kilo));
    match parse_vector(&chars("1,2"), false) {
        Err(e) => assert_eq!(e.message(), "expected 3 comma-separated components, got '1,2'"),
        Ok(_) => panic!("two components accepted"),
    }
}

#[test]
fn spawn_line_reads_units_and_keys() {
    let cmd = parse_command("spawn name=Theia mass=6.4e23 pos=1au,0,0 vel=0,29.78km/s,0").ok().unwrap();
    let args = match cmd {
        Command::Spawn(a) => a,
        _ => panic!("not a spawn"),
    };
    assert!(args.error.is_none());
    assert_eq!(args.args.len(), 4);
    match &args.args[0] {
        SpawnArg::Name(n) => assert_eq!(n, "Theia"),
        _ => panic!("name first"),
    }
    match &args.args[1] {
        SpawnArg::Mass(m) => assert_eq!(m, "6.4e23"),
        _ => panic!("mass second"),
    }
    match &args.args[2] {
        SpawnArg::Pos(v) => assert_eq!(q(&v.x), ("1".to_string(), UnitScale::AstronomicalUnit)),
        _ => panic!("pos third"),
    }
    match &args.args[3] {
        SpawnArg::Vel(v) => assert_eq!(q(&v.y), ("29.78".to_string(), UnitScale::Kilo)),
        _ => panic!("vel fourth"),
    }
}

#[test]
fn spawn_kind_defaults_unknown_words_to_planet() {
    match parse_spawn_arg(&chars("kind=moon")).ok().unwrap() {
        SpawnArg::Kind(k) => assert_eq!(k, Kind::Moon),
        _ => panic!("kind"),
    }
    match parse_spawn_arg(&chars("kind=asteroid")).ok().unwrap() {
        SpawnArg::Kind(k) => assert_eq!(k, Kind::Planet),
        _ => panic!("kind"),
    }
    match parse_spawn_arg(&chars("radius=2km")).ok().unwrap() {
        SpawnArg::Radius(r) => assert_eq!(q(&r), ("2".to_string(), UnitScale::Kilo)),
        _ => panic!("radius"),
    }
}

#[test]
fn spawn_stops_at_the_first_malformed_argument() {
    let cmd = parse_command("spawn name=X bogus mass=1").ok().unwrap();
    match cmd {
        Command::Spawn(a) => {
            assert_eq!(a.args.len(), 1);
            assert_eq!(a.error.unwrap().message(), "expected key=value, got 'bogus'");
        },
        _ => panic!("not a spawn"),
    }
    match parse_command("spawn color=red").ok().unwrap() {
        Command::Spawn(a) => assert_eq!(a.error.unwrap().message(), "unknown key 'color'"),
        _ => panic!("not a spawn"),
    }
}

#[test]
fn inspect_takes_a_name() {
    match parse_command("  inspect   Mars  ").ok().unwrap() {
        Command::Inspect(n) => assert_eq!(n, "Mars"),
        _ => panic!("not inspect"),
    }
    assert_eq!(error_of("inspect").message(), "usage: inspect <name>");
}

#[test]
fn refused_lines_say_why() {
    assert_eq!(error_of("").message(), "empty command");
    assert_eq!(error_of("   ").message(), "empty command");
    assert_eq!(error_of("frobnicate x=1").message(), "unknown command: frobnicate");
    assert!(matches!(error_of("frobnicate x=1"), CommandError::UnknownCommand(_)));
}

#[test]
fn unknown_command_errors() {
    assert!(parse_command("frobnicate x=1").is_err());
}

#[test]
fn set_names_a_body_or_edits_the_selection() {
    match parse_command("set Mars vel=0,50km/s,0").ok().unwrap() {
        Command::Edit { target, args } => {
            assert_eq!(target.as_deref(), Some("Mars"));
            assert!(args.error.is_none());
            match &args.args[0] {
                SpawnArg::Vel(v) => assert_eq!(q(&v.y), ("50".to_string(), UnitScale::Kilo)),
                _ => panic!("vel"),
            }
        },
        _ => panic!("set edits a body"),
    }
    match parse_command("set mass=1e25").ok().unwrap() {
        Command::Edit { target, args } => {
            assert_eq!(target, None);
            match &args.args[0] {
                SpawnArg::Mass(m) => assert_eq!(m, "1e25"),
                _ => panic!("mass"),
            }
        },
        _ => panic!("set edits the selection"),
    }
    match parse_command("set Mars colour=red").ok().unwrap() {
        Command::Edit { args, .. } => assert_eq!(args.error.unwrap().message(), "unknown key 'colour'"),
        _ => panic!("set"),
    }
}

#[test]
fn set_gr_switches_relativity() {
    assert!(matches!(parse_command("set gr on").ok().unwrap(), Command::SetRelativity(true)));
    assert!(matches!(parse_command("set GR off").ok().unwrap(), Command::SetRelativity(false)));
    assert!(matches!(parse_command("set gr 1").ok().unwrap(), Command::SetRelativity(true)));
    assert_eq!(error_of("set gr maybe").message(), "usage: set gr on|off");
    assert_eq!(error_of("set gr").message(), "usage: set gr on|off");
}

#[test]
fn spawn_requires_mass() {
    match parse_command("spawn name=Nope pos=1au,0,0").ok().unwrap() {
        Command::Spawn(args) => {
            assert!(args.error.is_none());
            assert_eq!(check_spawn_mass(&args).unwrap().message(), "spawn requires mass=");
        },
        _ => panic!("not a spawn"),
    }
    match parse_command("spawn mass=6e24 pos=2au,0,0 vel=0,0,0").ok().unwrap() {
        Command::Spawn(args) => assert!(check_spawn_mass(&args).is_none()),
        _ => panic!("not a spawn"),
    }
}
