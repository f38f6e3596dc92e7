//! The `:` command line.
//!
//! Syntax:
//!   spawn [name=Theia] [kind=planet] [mass=6.4e23] [radius=3.4e6]
//!         [pos=0.98au,0,0] [vel=0,31km/s,0]
//!   inspect <name>
//!   set [name] key=value…   (the keys of spawn; the selected body when no name)
//!   set gr on|off
//!
//! Scalar values are SI unless suffixed: distances accept au/km/m, velocities
//! accept km/s or m/s. This module reads the structure of a command line:
//! which command, which keys, which unit each number carries. The numbers
//! themselves stay text until the simulation reads them.

use vstd::prelude::*;

use crate::sim::body::{parse_kind, spec_parse_kind, Kind};
use crate::text::{
    chars_of, push_chars, push_str, split_char, split_on, split_once, split_once_char,
    split_whitespace, string_from_chars, strip_suffix, strip_suffix_chars, trim, trim_chars, words,
};

verus! {

/// Result of running a command: panel lines to show and/or a body to select.
pub struct Outcome {
    pub panel: Option<Vec<String>>,
    pub select: Option<usize>,
}

/// The factor a number's unit suffix stands for.
#[derive(Clone, Copy, Debug, PartialEq, Eq, Structural)]
pub enum UnitScale {
    /// SI as written (bare numbers, `m`, `m/s`).
    Unit,
    /// Thousands (`km`, `km/s`).
    Kilo,
    /// Astronomical units (`au`).
    AstronomicalUnit,
}

/// A number as written, with the unit its suffix named.
pub struct Quantity {
    /// The number's text, suffix removed.
    pub number: String,
    pub scale: UnitScale,
}

/// A quantity as the contracts see it.
pub struct QuantityView {
    pub number: Seq<char>,
    pub scale: UnitScale,
}

impl View for Quantity {
    type V = QuantityView;

    open spec fn view(&self) -> QuantityView {
        QuantityView { number: self.number@, scale: self.scale }
    }
}

/// Three comma-separated components.
pub struct Vector3 {
    pub x: Quantity,
    pub y: Quantity,
    pub z: Quantity,
}

/// A 3-vector as the contracts see it.
pub struct Vector3View {
    pub x: QuantityView,
    pub y: QuantityView,
    pub z: QuantityView,
}

impl View for Vector3 {
    type V = Vector3View;

    open spec fn view(&self) -> Vector3View {
        Vector3View { x: self.x@, y: self.y@, z: self.z@ }
    }
}

/// One `key=value` argument of `spawn`.
pub enum SpawnArg {
    Name(String),
    Kind(Kind),
    /// Mass in kilograms, as written.
    Mass(String),
    Radius(Quantity),
    Pos(Vector3),
    Vel(Vector3),
}

/// A `spawn` argument as the contracts see it.
pub enum SpawnArgView {
    Name(Seq<char>),
    Kind(Kind),
    Mass(Seq<char>),
    Radius(QuantityView),
    Pos(Vector3View),
    Vel(Vector3View),
}

impl View for SpawnArg {
    type V = SpawnArgView;

    open spec fn view(&self) -> SpawnArgView {
        match self {
            SpawnArg::Name(s) => SpawnArgView::Name(s@),
            SpawnArg::Kind(k) => SpawnArgView::Kind(*k),
            SpawnArg::Mass(s) => SpawnArgView::Mass(s@),
            SpawnArg::Radius(q) => SpawnArgView::Radius(q@),
            SpawnArg::Pos(v) => SpawnArgView::Pos(v@),
            SpawnArg::Vel(v) => SpawnArgView::Vel(v@),
        }
    }
}

/// Why a command line was refused.
pub enum CommandError {
    Empty,
    UnknownCommand(String),
    InspectUsage,
    RelativityUsage,
    SpawnNeedsMass,
    ExpectedKeyValue(String),
    UnknownKey(String),
    ExpectedThreeComponents(String),
}

/// A refusal as the contracts see it.
pub enum CommandErrorView {
    Empty,
    UnknownCommand(Seq<char>),
    InspectUsage,
    RelativityUsage,
    SpawnNeedsMass,
    ExpectedKeyValue(Seq<char>),
    UnknownKey(Seq<char>),
    ExpectedThreeComponents(Seq<char>),
}

impl View for CommandError {
    type V = CommandErrorView;

    open spec fn view(&self) -> CommandErrorView {
        match self {
            CommandError::Empty => CommandErrorView::Empty,
            CommandError::UnknownCommand(s) => CommandErrorView::UnknownCommand(s@),
            CommandError::InspectUsage => CommandErrorView::InspectUsage,
            CommandError::RelativityUsage => CommandErrorView::RelativityUsage,
            CommandError::SpawnNeedsMass => CommandErrorView::SpawnNeedsMass,
            CommandError::ExpectedKeyValue(s) => CommandErrorView::ExpectedKeyValue(s@),
            CommandError::UnknownKey(s) => CommandErrorView::UnknownKey(s@),
            CommandError::ExpectedThreeComponents(s) => CommandErrorView::ExpectedThreeComponents(s@),
        }
    }
}

/// The text a refusal is reported with.
pub open spec fn spec_error_message(e: CommandErrorView) -> Seq<char> {
    match e {
        CommandErrorView::Empty => "empty command"@,
        CommandErrorView::UnknownCommand(c) => "unknown command: "@ + c,
        CommandErrorView::InspectUsage => "usage: inspect <name>"@,
        CommandErrorView::RelativityUsage => "usage: set gr on|off"@,
        CommandErrorView::SpawnNeedsMass => "spawn requires mass="@,
        CommandErrorView::ExpectedKeyValue(t) => "expected key=value, got '"@ + t + "'"@,
        CommandErrorView::UnknownKey(k) => "unknown key '"@ + k + "'"@,
        CommandErrorView::ExpectedThreeComponents(s) => "expected 3 comma-separated components, got '"@
            + s + "'"@,
    }
}

impl CommandError {
    /// The text the refusal is reported with.
    pub fn message(&self) -> (m: String)
        ensures
            m@ == spec_error_message(self@),
    {
        let mut m = String::new();
        match self {
            CommandError::Empty => push_str(&mut m, "empty command"),
            CommandError::UnknownCommand(c) => {
                push_str(&mut m, "unknown command: ");
                push_str(&mut m, c.as_str());
            },
            CommandError::InspectUsage => push_str(&mut m, "usage: inspect <name>"),
            CommandError::RelativityUsage => push_str(&mut m, "usage: set gr on|off"),
            CommandError::SpawnNeedsMass => push_str(&mut m, "spawn requires mass="),
            CommandError::ExpectedKeyValue(t) => {
                push_str(&mut m, "expected key=value, got '");
                push_str(&mut m, t.as_str());
                push_str(&mut m, "'");
            },
            CommandError::UnknownKey(k) => {
                push_str(&mut m, "unknown key '");
                push_str(&mut m, k.as_str());
                push_str(&mut m, "'");
            },
            CommandError::ExpectedThreeComponents(s) => {
                push_str(&mut m, "expected 3 comma-separated components, got '");
                push_str(&mut m, s.as_str());
                push_str(&mut m, "'");
            },
        }
        m
    }
}

/// The arguments of a `spawn`, read left to right up to the first
/// malformed one, which `error` then reports. Numbers stay unread: a bad
/// number in an earlier argument is reported before `error`.
pub struct SpawnArgs {
    pub args: Vec<SpawnArg>,
    pub error: Option<CommandError>,
}

/// The `spawn` arguments as the contracts see them.
pub struct SpawnArgsView {
    pub args: Seq<SpawnArgView>,
    pub error: Option<CommandErrorView>,
}

impl View for SpawnArgs {
    type V = SpawnArgsView;

    open spec fn view(&self) -> SpawnArgsView {
        SpawnArgsView {
            args: self.args@.map_values(|a: SpawnArg| a@),
            error: match self.error {
                Some(e) => Some(e@),
                None => None,
            },
        }
    }
}

/// A command line, read.
pub enum Command {
    Spawn(SpawnArgs),
    Inspect(String),
    /// Edit a body: the named one, or the selected one when no name is
    /// given. The edits use the keys of `spawn`.
    Edit { target: Option<String>, args: SpawnArgs },
    /// Switch general relativity on or off.
    SetRelativity(bool),
}

/// A command as the contracts see it.
pub enum CommandView {
    Spawn(SpawnArgsView),
    Inspect(Seq<char>),
    Edit { target: Option<Seq<char>>, args: SpawnArgsView },
    SetRelativity(bool),
}

impl View for Command {
    type V = CommandView;

    open spec fn view(&self) -> CommandView {
        match self {
            Command::Spawn(a) => CommandView::Spawn(a@),
            Command::Inspect(n) => CommandView::Inspect(n@),
            Command::Edit { target, args } => CommandView::Edit {
                target: match target {
                    Some(t) => Some(t@),
                    None => None,
                },
                args: args@,
            },
            Command::SetRelativity(on) => CommandView::SetRelativity(*on),
        }
    }
}

/// A length: `au` and `km` suffixes scale it, an `m` suffix or none leaves
/// it in metres.
pub open spec fn spec_length(s: Seq<char>) -> QuantityView {
    match strip_suffix(s, "au"@) {
        Some(n) => QuantityView { number: n, scale: UnitScale::AstronomicalUnit },
        None => match strip_suffix(s, "km"@) {
            Some(n) => QuantityView { number: n, scale: UnitScale::Kilo },
            None => match strip_suffix(s, "m"@) {
                Some(n) => QuantityView { number: n, scale: UnitScale::Unit },
                None => QuantityView { number: s, scale: UnitScale::Unit },
            },
        },
    }
}

/// A velocity: a `km/s` suffix scales it, `m/s` or none leaves it in m/s.
pub open spec fn spec_velocity(s: Seq<char>) -> QuantityView {
    match strip_suffix(s, "km/s"@) {
        Some(n) => QuantityView { number: n, scale: UnitScale::Kilo },
        None => match strip_suffix(s, "m/s"@) {
            Some(n) => QuantityView { number: n, scale: UnitScale::Unit },
            None => QuantityView { number: s, scale: UnitScale::Unit },
        },
    }
}

/// A quantity of the given sort (lengths when `length`, else velocities).
pub open spec fn spec_quantity(s: Seq<char>, length: bool) -> QuantityView {
    if length {
        spec_length(s)
    } else {
        spec_velocity(s)
    }
}

/// A 3-vector `a,b,c`; anything but exactly three components is refused.
pub open spec fn spec_vector(s: Seq<char>, length: bool) -> Result<Vector3View, CommandErrorView> {
    let parts = split_on(s, ',');
    if parts.len() != 3 {
        Err(CommandErrorView::ExpectedThreeComponents(s))
    } else {
        Ok(
            Vector3View {
                x: spec_quantity(parts[0], length),
                y: spec_quantity(parts[1], length),
                z: spec_quantity(parts[2], length),
            },
        )
    }
}

/// One `spawn` argument.
pub open spec fn spec_spawn_arg(tok: Seq<char>) -> Result<SpawnArgView, CommandErrorView> {
    match split_once(tok, '=') {
        None => Err(CommandErrorView::ExpectedKeyValue(tok)),
        Some((key, val)) => if key == "name"@ {
            Ok(SpawnArgView::Name(val))
        } else if key == "kind"@ {
            Ok(SpawnArgView::Kind(spec_parse_kind(val)))
        } else if key == "mass"@ {
            Ok(SpawnArgView::Mass(val))
        } else if key == "radius"@ {
            Ok(SpawnArgView::Radius(spec_length(val)))
        } else if key == "pos"@ {
            match spec_vector(val, true) {
                Ok(v) => Ok(SpawnArgView::Pos(v)),
                Err(e) => Err(e),
            }
        } else if key == "vel"@ {
            match spec_vector(val, false) {
                Ok(v) => Ok(SpawnArgView::Vel(v)),
                Err(e) => Err(e),
            }
        } else {
            Err(CommandErrorView::UnknownKey(key))
        },
    }
}

/// The `spawn` arguments read from `toks`, left to right, up to the first
/// malformed one.
pub open spec fn spec_spawn_args(toks: Seq<Seq<char>>) -> SpawnArgsView
    decreases toks.len(),
{
    if toks.len() == 0 {
        SpawnArgsView { args: Seq::empty(), error: None }
    } else {
        match spec_spawn_arg(toks[0]) {
            Ok(a) => {
                let rest = spec_spawn_args(toks.drop_first());
                SpawnArgsView { args: seq![a] + rest.args, error: rest.error }
            },
            Err(e) => SpawnArgsView { args: Seq::empty(), error: Some(e) },
        }
    }
}

/// Whether a word is `gr`, in any letter case.
pub open spec fn is_gr_word(t: Seq<char>) -> bool {
    t == "gr"@ || t == "Gr"@ || t == "gR"@ || t == "GR"@
}

/// The `set` command with the words `toks` after it: `set gr on|off`
/// (also `true`/`false`, `1`/`0`) switches relativity; otherwise a first word
/// without `=` names the body to edit, and the remaining words are edits with
/// the keys of `spawn`.
pub open spec fn spec_set_command(toks: Seq<Seq<char>>) -> Result<CommandView, CommandErrorView> {
    if toks.len() > 0 && is_gr_word(toks[0]) {
        let state = if toks.len() > 1 {
            toks[1]
        } else {
            Seq::empty()
        };
        if state == "on"@ || state == "true"@ || state == "1"@ {
            Ok(CommandView::SetRelativity(true))
        } else if state == "off"@ || state == "false"@ || state == "0"@ {
            Ok(CommandView::SetRelativity(false))
        } else {
            Err(CommandErrorView::RelativityUsage)
        }
    } else if toks.len() > 0 && split_once(toks[0], '=') is None {
        Ok(CommandView::Edit { target: Some(toks[0]), args: spec_spawn_args(toks.drop_first()) })
    } else {
        Ok(CommandView::Edit { target: None, args: spec_spawn_args(toks) })
    }
}

/// The command a line names. Its first word picks the command; the line's
/// surrounding white space is ignored.
pub open spec fn spec_parse_command(line: Seq<char>) -> Result<CommandView, CommandErrorView> {
    let ws = words(trim(line));
    let cmd = if ws.len() > 0 {
        ws[0]
    } else {
        Seq::empty()
    };
    if cmd == "spawn"@ {
        Ok(CommandView::Spawn(spec_spawn_args(ws.drop_first())))
    } else if cmd == "set"@ {
        spec_set_command(ws.drop_first())
    } else if cmd == "inspect"@ {
        if ws.len() >= 2 {
            Ok(CommandView::Inspect(ws[1]))
        } else {
            Err(CommandErrorView::InspectUsage)
        }
    } else if cmd.len() == 0 {
        Err(CommandErrorView::Empty)
    } else {
        Err(CommandErrorView::UnknownCommand(cmd))
    }
}

fn chars_are(v: &[char], lit: &str) -> (b: bool)
    ensures
        b == (v@ == lit@),
{
    let l = chars_of(lit);
    crate::text::chars_eq(v, l.as_slice())
}

fn quantity(number: &[char], scale: UnitScale) -> (q: Quantity)
    ensures
        q@ == (QuantityView { number: number@, scale }),
{
    Quantity { number: string_from_chars(number), scale }
}

/// Reads a length: `au` and `km` suffixes scale it, `m` or none is metres.
pub fn parse_length(s: &[char]) -> (q: Quantity)
    ensures
        q@ == spec_length(s@),
{
    if let Some(n) = strip_suffix_chars(s, "au") {
        quantity(n.as_slice(), UnitScale::AstronomicalUnit)
    } else if let Some(n) = strip_suffix_chars(s, "km") {
        quantity(n.as_slice(), UnitScale::Kilo)
    } else if let Some(n) = strip_suffix_chars(s, "m") {
        quantity(n.as_slice(), UnitScale::Unit)
    } else {
        quantity(s, UnitScale::Unit)
    }
}

/// Reads a velocity: a `km/s` suffix scales it, `m/s` or none is m/s.
pub fn parse_velocity(s: &[char]) -> (q: Quantity)
    ensures
        q@ == spec_velocity(s@),
{
    if let Some(n) = strip_suffix_chars(s, "km/s") {
        quantity(n.as_slice(), UnitScale::Kilo)
    } else if let Some(n) = strip_suffix_chars(s, "m/s") {
        quantity(n.as_slice(), UnitScale::Unit)
    } else {
        quantity(s, UnitScale::Unit)
    }
}

fn parse_quantity(s: &[char], length: bool) -> (q: Quantity)
    ensures
        q@ == spec_quantity(s@, length),
{
    if length {
        parse_length(s)
    } else {
        parse_velocity(s)
    }
}

/// Reads a 3-vector `a,b,c` of lengths (when `length`) or velocities.
pub fn parse_vector(s: &[char], length: bool) -> (r: Result<Vector3, CommandError>)
    ensures
        r matches Ok(v) ==> spec_vector(s@, length) == Ok::<Vector3View, CommandErrorView>(v@),
        r matches Err(e) ==> spec_vector(s@, length) == Err::<Vector3View, CommandErrorView>(e@),
{
    let parts = split_char(s, ',');
    if parts.len() != 3 {
        return Err(CommandError::ExpectedThreeComponents(string_from_chars(s)));
    }
    let x = parse_quantity(parts[0].as_slice(), length);
    let y = parse_quantity(parts[1].as_slice(), length);
    let z = parse_quantity(parts[2].as_slice(), length);
    Ok(Vector3 { x, y, z })
}

/// Reads one `key=value` argument of `spawn`.
pub fn parse_spawn_arg(tok: &[char]) -> (r: Result<SpawnArg, CommandError>)
    ensures
        r matches Ok(a) ==> spec_spawn_arg(tok@) == Ok::<SpawnArgView, CommandErrorView>(a@),
        r matches Err(e) ==> spec_spawn_arg(tok@) == Err::<SpawnArgView, CommandErrorView>(e@),
{
    let (key, val) = match split_once_char(tok, '=') {
        Some(kv) => kv,
        None => return Err(CommandError::ExpectedKeyValue(string_from_chars(tok))),
    };
    let k = key.as_slice();
    let v = val.as_slice();
    if chars_are(k, "name") {
        Ok(SpawnArg::Name(string_from_chars(v)))
    } else if chars_are(k, "kind") {
        let text = string_from_chars(v);
        Ok(SpawnArg::Kind(parse_kind(text.as_str())))
    } else if chars_are(k, "mass") {
        Ok(SpawnArg::Mass(string_from_chars(v)))
    } else if chars_are(k, "radius") {
        Ok(SpawnArg::Radius(parse_length(v)))
    } else if chars_are(k, "pos") {
        match parse_vector(v, true) {
            Ok(p) => Ok(SpawnArg::Pos(p)),
            Err(e) => Err(e),
        }
    } else if chars_are(k, "vel") {
        match parse_vector(v, false) {
            Ok(p) => Ok(SpawnArg::Vel(p)),
            Err(e) => Err(e),
        }
    } else {
        Err(CommandError::UnknownKey(string_from_chars(k)))
    }
}

/// Reads the `spawn` arguments among `toks` from index `from` on.
fn parse_spawn_args(toks: &Vec<Vec<char>>, from: usize) -> (r: SpawnArgs)
    requires
        from <= toks@.len(),
    ensures
        r@ == spec_spawn_args(toks@.skip(from as int).map_values(|t: Vec<char>| t@)),
{
    let ghost all = toks@.map_values(|t: Vec<char>| t@);
    let mut args: Vec<SpawnArg> = Vec::new();
    let mut i: usize = from;
    assert(toks@.skip(from as int).map_values(|t: Vec<char>| t@) =~= all.skip(from as int));
    while i < toks.len()
        invariant
            from <= i <= toks@.len(),
            all == toks@.map_values(|t: Vec<char>| t@),
            toks@.skip(from as int).map_values(|t: Vec<char>| t@) == all.skip(from as int),
            spec_spawn_args(all.skip(from as int)) == (SpawnArgsView {
                args: args@.map_values(|a: SpawnArg| a@) + spec_spawn_args(all.skip(i as int)).args,
                error: spec_spawn_args(all.skip(i as int)).error,
            }),
        decreases toks@.len() - i,
    {
        let ghost rest = all.skip(i as int);
        assert(rest[0] == toks@[i as int]@);
        assert(rest.drop_first() =~= all.skip(i + 1));
        match parse_spawn_arg(toks[i].as_slice()) {
            Ok(a) => {
                let ghost av = a@;
                let ghost prev = args@.map_values(|a: SpawnArg| a@);
                args.push(a);
                assert(args@.map_values(|a: SpawnArg| a@) =~= prev.push(av));
                assert(prev + (seq![av] + spec_spawn_args(all.skip(i + 1)).args) =~= prev.push(av)
                    + spec_spawn_args(all.skip(i + 1)).args);
                i += 1;
            },
            Err(e) => {
                assert(spec_spawn_args(rest) == (SpawnArgsView { args: Seq::empty(), error: Some(e@) }));
                let r = SpawnArgs { args, error: Some(e) };
                assert(r@.args =~= r@.args + Seq::<SpawnArgView>::empty());
                return r;
            },
        }
    }
    assert(all.skip(i as int) =~= Seq::<Seq<char>>::empty());
    let r = SpawnArgs { args, error: None };
    assert(r@.args =~= r@.args + Seq::<SpawnArgView>::empty());
    r
}

/// Reads the `set` command whose words are `toks` (the first being `set`).
fn parse_set(toks: &Vec<Vec<char>>) -> (r: Result<Command, CommandError>)
    requires
        toks@.len() >= 1,
    ensures
        r matches Ok(c) ==> spec_set_command(toks@.skip(1).map_values(|t: Vec<char>| t@)) == Ok::<
            CommandView,
            CommandErrorView,
        >(c@),
        r matches Err(e) ==> spec_set_command(toks@.skip(1).map_values(|t: Vec<char>| t@)) == Err::<
            CommandView,
            CommandErrorView,
        >(e@),
{
    let ghost rest = toks@.skip(1).map_values(|t: Vec<char>| t@);
    assert(toks@.len() > 1 ==> rest[0] == toks@[1]@);
    assert(toks@.len() > 2 ==> rest[1] == toks@[2]@);
    let first_is_gr = toks.len() > 1 && (chars_are(toks[1].as_slice(), "gr") || chars_are(toks[1].as_slice(), "Gr")
        || chars_are(toks[1].as_slice(), "gR") || chars_are(toks[1].as_slice(), "GR"));
    if first_is_gr {
        let empty: Vec<char> = Vec::new();
        let state: &[char] = if toks.len() > 2 {
            toks[2].as_slice()
        } else {
            empty.as_slice()
        };
        assert(state@ == (if rest.len() > 1 {
            rest[1]
        } else {
            Seq::<char>::empty()
        }));
        if chars_are(state, "on") || chars_are(state, "true") || chars_are(state, "1") {
            Ok(Command::SetRelativity(true))
        } else if chars_are(state, "off") || chars_are(state, "false") || chars_are(state, "0") {
            Ok(Command::SetRelativity(false))
        } else {
            Err(CommandError::RelativityUsage)
        }
    } else if toks.len() > 1 && split_once_char(toks[1].as_slice(), '=').is_none() {
        assert(toks@.skip(2).map_values(|t: Vec<char>| t@) =~= rest.drop_first());
        let target = string_from_chars(toks[1].as_slice());
        Ok(Command::Edit { target: Some(target), args: parse_spawn_args(toks, 2) })
    } else {
        Ok(Command::Edit { target: None, args: parse_spawn_args(toks, 1) })
    }
}

/// Reads a command line.
pub fn parse_command(line: &str) -> (r: Result<Command, CommandError>)
    ensures
        r matches Ok(c) ==> spec_parse_command(line@) == Ok::<CommandView, CommandErrorView>(c@),
        r matches Err(e) ==> spec_parse_command(line@) == Err::<CommandView, CommandErrorView>(e@),
{
    let chars = chars_of(line);
    let trimmed = trim_chars(chars.as_slice());
    let toks = split_whitespace(trimmed.as_slice());
    let ghost ws = words(trim(line@));
    assert(toks@.map_values(|t: Vec<char>| t@) =~= ws);
    let empty: Vec<char> = Vec::new();
    let cmd: &[char] = if toks.len() > 0 {
        toks[0].as_slice()
    } else {
        empty.as_slice()
    };
    proof {
        reveal_strlit("spawn");
        reveal_strlit("inspect");
        reveal_strlit("set");
        assert("spawn"@.len() == 5 && "inspect"@.len() == 7 && "set"@.len() == 3);
        if toks@.len() == 0 {
            assert(cmd@.len() == 0);
        } else {
            assert(cmd@ == ws[0]);
        }
    }
    if chars_are(cmd, "spawn") {
        assert(toks@.skip(1).map_values(|t: Vec<char>| t@) =~= ws.drop_first());
        Ok(Command::Spawn(parse_spawn_args(&toks, 1)))
    } else if chars_are(cmd, "set") {
        assert(toks@.skip(1).map_values(|t: Vec<char>| t@) =~= ws.drop_first());
        parse_set(&toks)
    } else if chars_are(cmd, "inspect") {
        if toks.len() >= 2 {
            Ok(Command::Inspect(string_from_chars(toks[1].as_slice())))
        } else {
            Err(CommandError::InspectUsage)
        }
    } else if cmd.len() == 0 {
        Err(CommandError::Empty)
    } else {
        Err(CommandError::UnknownCommand(string_from_chars(cmd)))
    }
}

/// Whether the arguments give a mass.
pub open spec fn names_mass(args: Seq<SpawnArgView>) -> bool {
    exists|i: int| 0 <= i < args.len() && #[trigger] args[i] is Mass
}

/// The refusal of a `spawn` that gives no mass, reported once the
/// arguments' numbers and form have been checked; `None` when a mass is
/// given.
pub fn check_spawn_mass(args: &SpawnArgs) -> (r: Option<CommandError>)
    ensures
        r is None <==> names_mass(args@.args),
        r matches Some(e) ==> e@ == CommandErrorView::SpawnNeedsMass,
{
    let mut i: usize = 0;
    while i < args.args.len()
        invariant
            i <= args.args@.len(),
            args@.args.len() == args.args@.len(),
            forall|j: int| 0 <= j < i ==> !(#[trigger] args@.args[j] is Mass),
        decreases args.args@.len() - i,
    {
        assert(args@.args[i as int] == args.args@[i as int]@);
        if let SpawnArg::Mass(_) = &args.args[i] {
            return None;
        }
        i += 1;
    }
    Some(CommandError::SpawnNeedsMass)
}

/// `set gr <w>` switches relativity off for `off`, `false` and `0`, on for
/// `on`, `true` and `1`, and is refused for any other word; no word switches
/// it both ways.
pub proof fn lemma_set_gr_words(toks: Seq<Seq<char>>)
    requires
        toks.len() >= 2,
        is_gr_word(toks[0]),
    ensures
        toks[1] == "off"@ || toks[1] == "false"@ || toks[1] == "0"@ ==> spec_set_command(toks) == Ok::<
            CommandView,
            CommandErrorView,
        >(CommandView::SetRelativity(false)),
        toks[1] == "on"@ || toks[1] == "true"@ || toks[1] == "1"@ ==> spec_set_command(toks) == Ok::<
            CommandView,
            CommandErrorView,
        >(CommandView::SetRelativity(true)),
        !(toks[1] == "off"@ || toks[1] == "false"@ || toks[1] == "0"@ || toks[1] == "on"@ || toks[1] == "true"@
            || toks[1] == "1"@) ==> spec_set_command(toks) == Err::<CommandView, CommandErrorView>(
            CommandErrorView::RelativityUsage,
        ),
{
    reveal_strlit("on");
    reveal_strlit("true");
    reveal_strlit("1");
    reveal_strlit("off");
    reveal_strlit("false");
    reveal_strlit("0");
    let w = toks[1];
    if w == "off"@ || w == "false"@ || w == "0"@ {
        assert(w != "on"@ && w != "true"@ && w != "1"@) by {
            if w == "off"@ {
                assert(w.len() == 3);
            }
            if w == "false"@ {
                assert(w.len() == 5);
            }
            if w == "0"@ {
                assert(w[0] == '0');
            }
        }
    }
}

} // verus!
