//! The interactive session's decisions: what each key does to the session
//! state, and which outside work (camera moves, simulation steps, rewinds)
//! the terminal loop must carry out for it.

use vstd::prelude::*;

use crate::render::scale::ScaleMode;
use crate::render::scene::Representation;
use crate::sim::body::{find_name, first_named, lemma_first_named, names_of};
use crate::text::{chars_of, push_str, skip_chars, starts_with, string_from_chars, trim, trim_chars};

verus! {

/// How much math the trace panel shows.
#[derive(Clone, Copy, Debug, PartialEq, Eq, Structural)]
pub enum TraceMode {
    Compact,
    Expanded,
    Debug,
}

impl TraceMode {
    /// compact → expanded → debug → compact (the `m` key).
    pub open spec fn spec_cycle(self) -> TraceMode {
        match self {
            TraceMode::Compact => TraceMode::Expanded,
            TraceMode::Expanded => TraceMode::Debug,
            TraceMode::Debug => TraceMode::Compact,
        }
    }

    /// The next trace mode.
    pub fn cycle(self) -> (m: TraceMode)
        ensures
            m == self.spec_cycle(),
    {
        match self {
            TraceMode::Compact => TraceMode::Expanded,
            TraceMode::Expanded => TraceMode::Debug,
            TraceMode::Debug => TraceMode::Compact,
        }
    }
}

/// A key press, as the session sees it.
#[derive(Clone, Copy, Debug, PartialEq, Eq, Structural)]
pub enum Key {
    Char(char),
    Esc,
    Enter,
    Backspace,
    Left,
    Right,
    Up,
    Down,
    Tab,
    BackTab,
    /// Ctrl-C.
    Interrupt,
    Other,
}

/// Outside work a key asks of the terminal loop.
pub enum Action {
    Nothing,
    Quit,
    /// The `:` line opened; any status message is cleared.
    OpenCommandLine,
    /// Fly along the view direction, forwards (+1) or back (-1).
    MoveForward(i8),
    /// Strafe right (+1) or left (-1).
    MoveRight(i8),
    /// Rise (+1) or sink (-1).
    MoveUp(i8),
    /// Turn by one step of yaw and pitch, each -1, 0 or +1.
    Turn(i8, i8),
    /// Run a `:` line other than `:scale`.
    RunCommand(String),
    /// `:scale` or the `v` key chose this scale mode.
    ScaleChanged(ScaleMode),
    /// `:scale` named no scale mode.
    UnknownScale(String),
    /// The `c` key chose this representation.
    ViewChanged(Representation),
    /// Restore the history snapshot at this index.
    Restore(usize),
    /// Restore the newest history snapshot (back at the live edge).
    RestoreLatest,
    /// Take one live step and record it in the history.
    StepLive,
    /// Resume live: keep only this many history snapshots.
    TruncateHistory(usize),
    /// Drop any panel override (selection or trace mode changed).
    ClearPanel,
}

/// An action as the contracts see it.
pub enum ActionView {
    Nothing,
    Quit,
    OpenCommandLine,
    MoveForward(i8),
    MoveRight(i8),
    MoveUp(i8),
    Turn(i8, i8),
    RunCommand(Seq<char>),
    ScaleChanged(ScaleMode),
    UnknownScale(Seq<char>),
    ViewChanged(Representation),
    Restore(usize),
    RestoreLatest,
    StepLive,
    TruncateHistory(usize),
    ClearPanel,
}

impl View for Action {
    type V = ActionView;

    open spec fn view(&self) -> ActionView {
        match self {
            Action::Nothing => ActionView::Nothing,
            Action::Quit => ActionView::Quit,
            Action::OpenCommandLine => ActionView::OpenCommandLine,
            Action::MoveForward(s) => ActionView::MoveForward(*s),
            Action::MoveRight(s) => ActionView::MoveRight(*s),
            Action::MoveUp(s) => ActionView::MoveUp(*s),
            Action::Turn(y, p) => ActionView::Turn(*y, *p),
            Action::RunCommand(l) => ActionView::RunCommand(l@),
            Action::ScaleChanged(m) => ActionView::ScaleChanged(*m),
            Action::UnknownScale(a) => ActionView::UnknownScale(a@),
            Action::ViewChanged(r) => ActionView::ViewChanged(*r),
            Action::Restore(i) => ActionView::Restore(*i),
            Action::RestoreLatest => ActionView::RestoreLatest,
            Action::StepLive => ActionView::StepLive,
            Action::TruncateHistory(n) => ActionView::TruncateHistory(*n),
            Action::ClearPanel => ActionView::ClearPanel,
        }
    }
}

/// Most simulation steps one rendered frame may take.
pub const MAX_STEPS_PER_FRAME: u32 = 4000;

/// The interactive session's state.
pub struct Controls {
    /// Index of the selected body.
    pub selected: usize,
    /// Body whose details card is open, if any.
    pub details: Option<usize>,
    pub paused: bool,
    pub trace_mode: TraceMode,
    /// Simulation steps per rendered frame.
    pub steps_per_frame: u32,
    pub screensaver: bool,
    pub representation: Representation,
    pub scale_mode: ScaleMode,
    /// The `:` line being typed, if any.
    pub command: Option<Vec<char>>,
    /// While scrubbing the rewind history: the snapshot shown.
    pub hist_cursor: Option<usize>,
}

/// The session state as the contracts see it.
pub struct ControlsView {
    pub selected: usize,
    pub details: Option<usize>,
    pub paused: bool,
    pub trace_mode: TraceMode,
    pub steps_per_frame: u32,
    pub screensaver: bool,
    pub representation: Representation,
    pub scale_mode: ScaleMode,
    pub command: Option<Seq<char>>,
    pub hist_cursor: Option<usize>,
}

impl View for Controls {
    type V = ControlsView;

    open spec fn view(&self) -> ControlsView {
        ControlsView {
            selected: self.selected,
            details: self.details,
            paused: self.paused,
            trace_mode: self.trace_mode,
            steps_per_frame: self.steps_per_frame,
            screensaver: self.screensaver,
            representation: self.representation,
            scale_mode: self.scale_mode,
            command: match self.command {
                Some(b) => Some(b@),
                None => None,
            },
            hist_cursor: self.hist_cursor,
        }
    }
}

/// Enter on the `:` line `line`: `scale <mode>` is the session's own
/// business; any other line is a command for the simulation.
pub open spec fn spec_enter_line(s: ControlsView, line: Seq<char>) -> (ControlsView, ActionView) {
    let closed = ControlsView { command: None, ..s };
    let t = trim(line);
    if starts_with(t, "scale "@) {
        let arg = trim(t.skip(6));
        match ScaleMode::spec_from_name(arg) {
            Some(m) => (ControlsView { scale_mode: m, ..closed }, ActionView::ScaleChanged(m)),
            None => (closed, ActionView::UnknownScale(arg)),
        }
    } else {
        (closed, ActionView::RunCommand(line))
    }
}

/// A key while the `:` line is open: Esc closes it, Backspace deletes,
/// Enter submits, characters are typed; other keys do nothing.
pub open spec fn spec_command_key(s: ControlsView, line: Seq<char>, key: Key) -> (ControlsView, ActionView) {
    match key {
        Key::Esc => (ControlsView { command: None, ..s }, ActionView::Nothing),
        Key::Backspace => (
            ControlsView {
                command: Some(
                    if line.len() > 0 {
                        line.drop_last()
                    } else {
                        line
                    },
                ),
                ..s
            },
            ActionView::Nothing,
        ),
        Key::Enter => spec_enter_line(s, line),
        Key::Char(c) => (ControlsView { command: Some(line.push(c)), ..s }, ActionView::Nothing),
        _ => (s, ActionView::Nothing),
    }
}

/// A key in normal mode, with `bodies` bodies in the world and `history`
/// snapshots in the rewind history.
pub open spec fn spec_normal_key(s: ControlsView, key: Key, bodies: nat, history: nat) -> (ControlsView, ActionView) {
    match key {
        Key::Esc => (s, ActionView::Quit),
        Key::Left => (s, ActionView::Turn(-1i8, 0i8)),
        Key::Right => (s, ActionView::Turn(1, 0)),
        Key::Up => (s, ActionView::Turn(0, 1)),
        Key::Down => (s, ActionView::Turn(0i8, -1i8)),
        Key::Tab => (
            ControlsView { selected: ((s.selected + 1) % (bodies as int)) as usize, ..s },
            ActionView::ClearPanel,
        ),
        Key::BackTab => (
            ControlsView {
                selected: ((s.selected + bodies - 1) % (bodies as int)) as usize,
                ..s
            },
            ActionView::ClearPanel,
        ),
        Key::Char(c) => if c == 'q' {
            (s, ActionView::Quit)
        } else if c == ':' {
            (ControlsView { command: Some(Seq::empty()), ..s }, ActionView::OpenCommandLine)
        } else if c == 'w' {
            (s, ActionView::MoveForward(1))
        } else if c == 's' {
            (s, ActionView::MoveForward(-1i8))
        } else if c == 'a' {
            (s, ActionView::MoveRight(-1i8))
        } else if c == 'd' {
            (s, ActionView::MoveRight(1))
        } else if c == 'r' {
            (s, ActionView::MoveUp(1))
        } else if c == 'f' {
            (s, ActionView::MoveUp(-1i8))
        } else if c == ' ' {
            if s.paused {
                match s.hist_cursor {
                    Some(cur) => (
                        ControlsView { paused: false, hist_cursor: None, ..s },
                        ActionView::TruncateHistory((cur + 1) as usize),
                    ),
                    None => (ControlsView { paused: false, ..s }, ActionView::Nothing),
                }
            } else {
                (ControlsView { paused: true, ..s }, ActionView::Nothing)
            }
        } else if c == '.' {
            match s.hist_cursor {
                Some(cur) => if cur + 2 >= history {
                    (ControlsView { hist_cursor: None, ..s }, ActionView::RestoreLatest)
                } else {
                    (
                        ControlsView { hist_cursor: Some((cur + 1) as usize), ..s },
                        ActionView::Restore((cur + 1) as usize),
                    )
                },
                None => (s, ActionView::StepLive),
            }
        } else if c == ',' {
            if history > 0 {
                let cur = match s.hist_cursor {
                    Some(cur) => cur as int,
                    None => history - 1,
                };
                let back = if cur > 0 {
                    cur - 1
                } else {
                    0
                };
                (
                    ControlsView { paused: true, hist_cursor: Some(back as usize), ..s },
                    ActionView::Restore(back as usize),
                )
            } else {
                (s, ActionView::Nothing)
            }
        } else if c == ']' {
            let faster = s.steps_per_frame + s.steps_per_frame / 2 + 1;
            (
                ControlsView {
                    steps_per_frame: (if faster < MAX_STEPS_PER_FRAME {
                        faster
                    } else {
                        MAX_STEPS_PER_FRAME as int
                    }) as u32,
                    ..s
                },
                ActionView::Nothing,
            )
        } else if c == '[' {
            let slower = s.steps_per_frame * 2 / 3;
            (
                ControlsView {
                    steps_per_frame: (if slower > 1 {
                        slower
                    } else {
                        1
                    }) as u32,
                    ..s
                },
                ActionView::Nothing,
            )
        } else if c == 'm' {
            (ControlsView { trace_mode: s.trace_mode.spec_cycle(), ..s }, ActionView::ClearPanel)
        } else if c == 'v' {
            (
                ControlsView { scale_mode: s.scale_mode.spec_cycle(), ..s },
                ActionView::ScaleChanged(s.scale_mode.spec_cycle()),
            )
        } else if c == 'z' {
            (ControlsView { screensaver: !s.screensaver, ..s }, ActionView::Nothing)
        } else if c == 'c' {
            (
                ControlsView { representation: s.representation.spec_cycle(), ..s },
                ActionView::ViewChanged(s.representation.spec_cycle()),
            )
        } else {
            (s, ActionView::Nothing)
        },
        _ => (s, ActionView::Nothing),
    }
}

/// What a key does: Ctrl-C always quits; otherwise the `:` line takes the
/// key while it is open, and normal mode handles it when not.
pub open spec fn spec_handle_key(s: ControlsView, key: Key, bodies: nat, history: nat) -> (ControlsView, ActionView) {
    if key == Key::Interrupt {
        (s, ActionView::Quit)
    } else {
        match s.command {
            Some(line) => spec_command_key(s, line, key),
            None => spec_normal_key(s, key, bodies, history),
        }
    }
}

/// What the session needs for `handle_key` not to fail: a key that cycles
/// the selection needs a body to select, the speed keys must not overflow,
/// and a rewind cursor points into the history.
pub open spec fn key_ok(s: ControlsView, key: Key, bodies: nat, history: nat) -> bool {
    &&& (s.command is None && key == Key::Tab) ==> bodies > 0 && s.selected + 1 <= usize::MAX
    &&& (s.command is None && key == Key::BackTab) ==> bodies > 0 && s.selected + bodies - 1 <= usize::MAX
    &&& (s.command is None && key == Key::Char(']')) ==> s.steps_per_frame + s.steps_per_frame / 2 + 1
        <= u32::MAX
    &&& (s.command is None && key == Key::Char('[')) ==> s.steps_per_frame * 2 <= u32::MAX
    &&& s.hist_cursor matches Some(c) ==> c < history && c + 2 <= usize::MAX
}

fn starts_with_scale(t: &[char]) -> (b: bool)
    ensures
        b == starts_with(t@, "scale "@),
{
    let p = chars_of("scale ");
    proof {
        reveal_strlit("scale ");
    }
    if t.len() < p.len() {
        return false;
    }
    let mut i: usize = 0;
    while i < p.len()
        invariant
            i <= p@.len(),
            p@ == "scale "@,
            p@.len() == 6,
            t@.len() >= p@.len(),
            forall|j: int| 0 <= j < i ==> #[trigger] t@[j] == p@[j],
        decreases p@.len() - i,
    {
        if t[i] != crate::text::char_at(&p, i) {
            assert(t@.take(6)[i as int] != p@[i as int]);
            return false;
        }
        i += 1;
    }
    assert(t@.take(6) =~= p@);
    true
}

impl Controls {
    /// A fresh session: Compact trace, not paused, no rewind in progress.
    pub fn new(
        selected: usize,
        steps_per_frame: u32,
        screensaver: bool,
        representation: Representation,
        scale_mode: ScaleMode,
    ) -> (c: Controls)
        ensures
            c@ == (ControlsView {
                selected,
                details: None,
                paused: false,
                trace_mode: TraceMode::Compact,
                steps_per_frame,
                screensaver,
                representation,
                scale_mode,
                command: None,
                hist_cursor: None,
            }),
    {
        Controls {
            selected,
            details: None,
            paused: false,
            trace_mode: TraceMode::Compact,
            steps_per_frame,
            screensaver,
            representation,
            scale_mode,
            command: None,
            hist_cursor: None,
        }
    }

    /// The `:` line being typed, if any.
    pub fn command_line(&self) -> (l: Option<String>)
        ensures
            l is Some <==> self@.command is Some,
            l matches Some(t) ==> self@.command == Some(t@),
    {
        match &self.command {
            Some(b) => Some(string_from_chars(b.as_slice())),
            None => None,
        }
    }

    fn enter_line(&mut self, line: Vec<char>) -> (a: Action)
        requires
            old(self)@.command is None,
        ensures
            (final(self)@, a@) == spec_enter_line(old(self)@, line@),
    {
        let t = trim_chars(line.as_slice());
        proof {
            reveal_strlit("scale ");
        }
        if starts_with_scale(t.as_slice()) {
            let rest = skip_chars(t.as_slice(), 6);
            let arg = trim_chars(rest.as_slice());
            let arg_text = string_from_chars(arg.as_slice());
            match ScaleMode::from_name(arg_text.as_str()) {
                Some(m) => {
                    self.scale_mode = m;
                    Action::ScaleChanged(m)
                },
                None => Action::UnknownScale(arg_text),
            }
        } else {
            Action::RunCommand(string_from_chars(line.as_slice()))
        }
    }

    /// Applies a key press with `bodies` bodies in the world and `history`
    /// snapshots in the rewind history, and says what outside work it needs.
    pub fn handle_key(&mut self, key: Key, bodies: usize, history: usize) -> (a: Action)
        requires
            key_ok(old(self)@, key, bodies as nat, history as nat),
        ensures
            (final(self)@, a@) == spec_handle_key(old(self)@, key, bodies as nat, history as nat),
    {
        if key == Key::Interrupt {
            return Action::Quit;
        }
        if self.command.is_some() {
            return self.command_key(key);
        }
        match key {
            Key::Esc => Action::Quit,
            Key::Left => Action::Turn(-1, 0),
            Key::Right => Action::Turn(1, 0),
            Key::Up => Action::Turn(0, 1),
            Key::Down => Action::Turn(0, -1),
            Key::Tab => {
                self.selected = (self.selected + 1) % bodies;
                Action::ClearPanel
            },
            Key::BackTab => {
                self.selected = (self.selected + (bodies - 1)) % bodies;
                Action::ClearPanel
            },
            Key::Char(c) => self.char_key(c, history),
            _ => Action::Nothing,
        }
    }

    fn command_key(&mut self, key: Key) -> (a: Action)
        requires
            old(self)@.command is Some,
            key != Key::Interrupt,
        ensures
            (final(self)@, a@) == spec_command_key(old(self)@, old(self)@.command.unwrap(), key),
    {
        let mut line = match self.command.take() {
            Some(l) => l,
            None => Vec::new(),
        };
        match key {
            Key::Esc => Action::Nothing,
            Key::Backspace => {
                let _ = line.pop();
                self.command = Some(line);
                Action::Nothing
            },
            Key::Enter => self.enter_line(line),
            Key::Char(c) => {
                line.push(c);
                self.command = Some(line);
                Action::Nothing
            },
            _ => {
                self.command = Some(line);
                Action::Nothing
            },
        }
    }

    fn char_key(&mut self, c: char, history: usize) -> (a: Action)
        requires
            old(self)@.command is None,
            key_ok(old(self)@, Key::Char(c), 0, history as nat),
        ensures
            (final(self)@, a@) == spec_normal_key(old(self)@, Key::Char(c), 0, history as nat),
    {
        if c == 'q' {
            Action::Quit
        } else if c == ':' {
            self.command = Some(Vec::new());
            Action::OpenCommandLine
        } else if c == 'w' {
            Action::MoveForward(1)
        } else if c == 's' {
            Action::MoveForward(-1)
        } else if c == 'a' {
            Action::MoveRight(-1)
        } else if c == 'd' {
            Action::MoveRight(1)
        } else if c == 'r' {
            Action::MoveUp(1)
        } else if c == 'f' {
            Action::MoveUp(-1)
        } else if c == ' ' {
            self.paused = !self.paused;
            if !self.paused {
                if let Some(cur) = self.hist_cursor.take() {
                    return Action::TruncateHistory(cur + 1);
                }
            }
            Action::Nothing
        } else if c == '.' {
            match self.hist_cursor {
                Some(cur) => if cur + 2 >= history {
                    self.hist_cursor = None;
                    Action::RestoreLatest
                } else {
                    self.hist_cursor = Some(cur + 1);
                    Action::Restore(cur + 1)
                },
                None => Action::StepLive,
            }
        } else if c == ',' {
            if history > 0 {
                self.paused = true;
                let cur = match self.hist_cursor {
                    Some(cur) => cur,
                    None => history - 1,
                };
                let back = if cur > 0 {
                    cur - 1
                } else {
                    0
                };
                self.hist_cursor = Some(back);
                Action::Restore(back)
            } else {
                Action::Nothing
            }
        } else if c == ']' {
            let faster = self.steps_per_frame + self.steps_per_frame / 2 + 1;
            self.steps_per_frame = if faster < MAX_STEPS_PER_FRAME {
                faster
            } else {
                MAX_STEPS_PER_FRAME
            };
            Action::Nothing
        } else if c == '[' {
            let slower = self.steps_per_frame * 2 / 3;
            self.steps_per_frame = if slower > 1 {
                slower
            } else {
                1
            };
            Action::Nothing
        } else if c == 'm' {
            self.trace_mode = self.trace_mode.cycle();
            Action::ClearPanel
        } else if c == 'v' {
            self.scale_mode = self.scale_mode.cycle();
            Action::ScaleChanged(self.scale_mode)
        } else if c == 'z' {
            self.screensaver = !self.screensaver;
            Action::Nothing
        } else if c == 'c' {
            self.representation = self.representation.cycle();
            Action::ViewChanged(self.representation)
        } else {
            Action::Nothing
        }
    }
}

/// Where a stored body index points after a collision removed body
/// `removed` and left the merged body at `survivor`.
pub open spec fn spec_adjust_index(idx: usize, removed: usize, survivor: usize) -> usize {
    if idx == removed {
        survivor
    } else if idx > removed {
        (idx - 1) as usize
    } else {
        idx
    }
}

/// Shifts a stored body index after a collision removed `removed` and left
/// the survivor at `survivor`.
pub fn adjust_index(idx: &mut usize, removed: usize, survivor: usize)
    ensures
        *final(idx) == spec_adjust_index(*old(idx), removed, survivor),
{
    if *idx == removed {
        *idx = survivor;
    } else if *idx > removed {
        *idx -= 1;
    }
}

/// Which of two colliding bodies `i` and `j` survives (the heavier, `i` on a
/// tie: `i_heavier` says whether `i`'s mass is at least `j`'s), which is
/// removed, and where the survivor sits once the other is removed.
pub open spec fn spec_merge_plan(i: usize, j: usize, i_heavier: bool) -> (usize, usize, usize) {
    let (keep, drop) = if i_heavier {
        (i, j)
    } else {
        (j, i)
    };
    (keep, drop, if drop < keep {
        (keep - 1) as usize
    } else {
        keep
    })
}

/// (kept, removed, survivor's index after the removal) for a collision of
/// bodies `i` and `j`.
pub fn merge_plan(i: usize, j: usize, i_heavier: bool) -> (r: (usize, usize, usize))
    ensures
        r == spec_merge_plan(i, j, i_heavier),
{
    let (keep, drop) = if i_heavier {
        (i, j)
    } else {
        (j, i)
    };
    let survivor = if drop < keep {
        keep - 1
    } else {
        keep
    };
    (keep, drop, survivor)
}

/// Removes the body a merge lost from the body list and returns it. Every
/// other index kept elsewhere, once moved by `adjust_index`, names the same
/// body in the shorter list; in particular the merge plan's survivor index
/// names the body that was kept.
pub fn remove_lost<T>(items: &mut Vec<T>, lost: usize) -> (removed: T)
    requires
        lost < old(items)@.len(),
    ensures
        removed == old(items)@[lost as int],
        final(items)@ == old(items)@.remove(lost as int),
        forall|k: usize, survivor: usize|
            k < old(items)@.len() && k != lost ==> spec_adjust_index(k, lost, survivor) < final(items)@.len()
                && final(items)@[#[trigger] spec_adjust_index(k, lost, survivor) as int] == old(items)@[k as int],
        forall|i: usize, j: usize, i_heavier: bool|
            i != j && i < old(items)@.len() && j < old(items)@.len() && #[trigger] spec_merge_plan(
                i,
                j,
                i_heavier,
            ).1 == lost ==> final(items)@[spec_merge_plan(i, j, i_heavier).2 as int] == old(items)@[spec_merge_plan(
                i,
                j,
                i_heavier,
            ).0 as int],
{
    items.remove(lost)
}

/// After a collision merges two bodies, every stored index still names the
/// same body, an index of the removed body names the merged survivor, and
/// every index stays inside the shorter body list.
pub proof fn lemma_collision_keeps_selection<A>(bodies: Seq<A>, i: usize, j: usize, i_heavier: bool)
    requires
        i != j,
        i < bodies.len(),
        j < bodies.len(),
    ensures
        ({
            let (keep, drop, survivor) = spec_merge_plan(i, j, i_heavier);
            let after = bodies.remove(drop as int);
            &&& after[survivor as int] == bodies[keep as int]
            &&& spec_adjust_index(drop, drop, survivor) == survivor
            &&& forall|k: usize|
                k < bodies.len() ==> #[trigger] spec_adjust_index(k, drop, survivor) < after.len()
            &&& forall|k: usize|
                k < bodies.len() && k != drop ==> after[spec_adjust_index(k, drop, survivor) as int]
                    == #[trigger] bodies[k as int]
        }),
{
}

impl Controls {
    /// Keeps the selection and the open details card on their bodies
    /// across a collision (see `adjust_index`).
    pub fn on_collision(&mut self, removed: usize, survivor: usize)
        ensures
            final(self)@ == (ControlsView {
                selected: spec_adjust_index(old(self).selected, removed, survivor),
                details: match old(self).details {
                    Some(d) => Some(spec_adjust_index(d, removed, survivor)),
                    None => None,
                },
                ..old(self)@
            }),
    {
        adjust_index(&mut self.selected, removed, survivor);
        if let Some(d) = self.details {
            let mut d2 = d;
            adjust_index(&mut d2, removed, survivor);
            self.details = Some(d2);
        }
    }

    /// A right-click picked body `picked` (or none): open its details card
    /// and select it, or close the card.
    pub fn on_pick(&mut self, picked: Option<usize>)
        ensures
            final(self)@ == (match picked {
                Some(i) => ControlsView { details: Some(i), selected: i, ..old(self)@ },
                None => ControlsView { details: None, ..old(self)@ },
            }),
    {
        match picked {
            Some(i) => {
                self.details = Some(i);
                self.selected = i;
            },
            None => {
                self.details = None;
            },
        }
    }

    /// After a rewind restored a world of `bodies` bodies: keep the
    /// selection inside it and close a card whose body no longer exists.
    pub fn after_restore(&mut self, bodies: usize)
        ensures
            final(self)@ == (ControlsView {
                selected: if old(self).selected < bodies {
                    old(self).selected
                } else if bodies > 0 {
                    (bodies - 1) as usize
                } else {
                    0
                },
                details: match old(self).details {
                    Some(d) => if d < bodies {
                        Some(d)
                    } else {
                        None
                    },
                    None => None,
                },
                ..old(self)@
            }),
    {
        let last = if bodies > 0 {
            bodies - 1
        } else {
            0
        };
        if self.selected > last {
            self.selected = last;
        }
        if let Some(d) = self.details {
            if d >= bodies {
                self.details = None;
            }
        }
    }
}

/// The body selected at start: Earth if present, else body 1, and never
/// past the last body.
pub fn initial_selection(earth: Option<usize>, bodies: usize) -> (i: usize)
    requires
        bodies > 0,
    ensures
        i == ({
            let want = match earth {
                Some(e) => e,
                None => 1,
            };
            if want < bodies {
                want
            } else {
                (bodies - 1) as usize
            }
        }),
        i < bodies,
{
    let want = match earth {
        Some(e) => e,
        None => 1,
    };
    if want < bodies - 1 {
        want
    } else {
        bodies - 1
    }
}

/// Tab then Shift-Tab returns to the body that was selected.
pub proof fn lemma_tab_then_backtab(s: ControlsView, bodies: nat, history: nat)
    requires
        s.command is None,
        bodies > 0,
        bodies <= usize::MAX,
        s.selected < bodies,
    ensures
        spec_handle_key(spec_handle_key(s, Key::Tab, bodies, history).0, Key::BackTab, bodies, history).0.selected
            == s.selected,
{
    let t = spec_handle_key(s, Key::Tab, bodies, history).0;
    if s.selected + 1 < bodies {
        assert((s.selected + 1) % (bodies as int) == s.selected + 1) by (nonlinear_arith)
            requires
                0 <= s.selected + 1 < bodies,
        ;
        assert((s.selected + 1 + bodies - 1) % (bodies as int) == s.selected) by (nonlinear_arith)
            requires
                0 <= s.selected < bodies,
        ;
    } else {
        assert((s.selected + 1) % (bodies as int) == 0) by (nonlinear_arith)
            requires
                s.selected + 1 == bodies,
        ;
        assert((0 + bodies - 1) % (bodies as int) == bodies - 1) by (nonlinear_arith)
            requires
                bodies > 0,
        ;
    }
}

/// Every key keeps the selection on an existing body and the rewind cursor
/// inside the history.
pub proof fn lemma_key_keeps_indices(s: ControlsView, key: Key, bodies: nat, history: nat)
    requires
        key_ok(s, key, bodies, history),
        s.selected < bodies,
        bodies <= usize::MAX,
    ensures
        ({
            let t = spec_handle_key(s, key, bodies, history).0;
            &&& t.selected < bodies
            &&& t.hist_cursor matches Some(c) ==> c < history
        }),
{
    let t = spec_handle_key(s, key, bodies, history).0;
    if s.command is None && key == Key::Tab {
        assert((s.selected + 1) % (bodies as int) < bodies) by (nonlinear_arith)
            requires
                bodies > 0,
        ;
    }
    if s.command is None && key == Key::BackTab {
        assert((s.selected + bodies - 1) % (bodies as int) < bodies) by (nonlinear_arith)
            requires
                bodies > 0,
                s.selected >= 0,
        ;
    }
}

/// `]` speeds the simulation up and `[` slows it down, within one to
/// `MAX_STEPS_PER_FRAME` steps per frame.
pub proof fn lemma_speed_keys(s: ControlsView, history: nat)
    requires
        s.command is None,
        s.steps_per_frame + s.steps_per_frame / 2 + 1 <= u32::MAX,
        s.steps_per_frame * 2 <= u32::MAX,
    ensures
        ({
            let up = spec_handle_key(s, Key::Char(']'), 0, history).0.steps_per_frame;
            let down = spec_handle_key(s, Key::Char('['), 0, history).0.steps_per_frame;
            &&& up <= MAX_STEPS_PER_FRAME
            &&& s.steps_per_frame < MAX_STEPS_PER_FRAME ==> up > s.steps_per_frame
            &&& down >= 1
            &&& s.steps_per_frame > 1 ==> down < s.steps_per_frame
        }),
{
}

/// Rewinding pauses on a snapshot no later than the one shown before, and
/// resuming from a rewound snapshot drops every snapshot after it (the
/// timeline branches there) and returns to the live edge.
pub proof fn lemma_rewind_then_resume(s: ControlsView, bodies: nat, history: nat)
    requires
        s.command is None,
        history > 0,
        history <= usize::MAX,
        s.hist_cursor matches Some(c) ==> c < history,
    ensures
        ({
            let (t, a) = spec_handle_key(s, Key::Char(','), bodies, history);
            let shown = match s.hist_cursor {
                Some(c) => c as int,
                None => history - 1,
            };
            &&& t.paused
            &&& t.hist_cursor matches Some(k) && k <= shown && k < history && a == ActionView::Restore(k)
            &&& ({
                let (u, b) = spec_handle_key(t, Key::Char(' '), bodies, history);
                &&& !u.paused
                &&& u.hist_cursor is None
                &&& b == ActionView::TruncateHistory((t.hist_cursor->0 + 1) as usize)
            })
        }),
{
}

/// The arrow keys turn the camera and change nothing else: Up looks up
/// (pitch +1), Down looks down (pitch −1), Left turns left (yaw −1), Right
/// turns right (yaw +1), so opposite arrows ask for opposite turns.
pub proof fn lemma_arrow_keys_turn(s: ControlsView, bodies: nat, history: nat)
    requires
        s.command is None,
    ensures
        spec_handle_key(s, Key::Up, bodies, history) == (s, ActionView::Turn(0, 1)),
        spec_handle_key(s, Key::Down, bodies, history) == (s, ActionView::Turn(0i8, -1i8)),
        spec_handle_key(s, Key::Left, bodies, history) == (s, ActionView::Turn(-1i8, 0i8)),
        spec_handle_key(s, Key::Right, bodies, history) == (s, ActionView::Turn(1, 0)),
{
}

/// The trace-mode key cycles through all three modes and back.
pub proof fn lemma_trace_mode_cycle(m: TraceMode)
    ensures
        m.spec_cycle().spec_cycle().spec_cycle() == m,
        m != m.spec_cycle(),
        m != m.spec_cycle().spec_cycle(),
{
}

/// Widest of the given lines, in characters (`None` when there are none).
pub open spec fn max_width(lines: Seq<Seq<char>>) -> Option<nat>
    decreases lines.len(),
{
    if lines.len() == 0 {
        None
    } else {
        let w = lines.last().len();
        match max_width(lines.drop_last()) {
            Some(m) => Some(if m >= w { m } else { w }),
            None => Some(w),
        }
    }
}

fn widest(lines: &Vec<String>) -> (m: Option<usize>)
    ensures
        m matches Some(x) ==> max_width(lines@.map_values(|l: String| l@)) == Some(x as nat),
        m is None ==> max_width(lines@.map_values(|l: String| l@)) is None,
{
    let ghost all = lines@.map_values(|l: String| l@);
    let mut best: Option<usize> = None;
    let mut i: usize = 0;
    while i < lines.len()
        invariant
            i <= lines@.len(),
            all == lines@.map_values(|l: String| l@),
            best matches Some(x) ==> max_width(all.take(i as int)) == Some(x as nat),
            best is None ==> max_width(all.take(i as int)) is None,
        decreases lines@.len() - i,
    {
        let w = chars_of(lines[i].as_str()).len();
        assert(all.take(i + 1).drop_last() =~= all.take(i as int));
        assert(all.take(i + 1).last() == lines@[i as int]@);
        best = match best {
            Some(m) => Some(if m >= w { m } else { w }),
            None => Some(w),
        };
        i += 1;
    }
    assert(all.take(i as int) =~= all);
    best
}

/// Where the details card sits: its top-left corner and outer size.
#[derive(Clone, Copy, Debug, PartialEq, Eq, Structural)]
pub struct CardLayout {
    pub x0: u16,
    pub y0: u16,
    pub width: u16,
    pub height: u16,
}

/// The details card for `lines` on a `w × h` screen: a border around lines
/// 24 to 40 characters wide, anchored bottom-right just above the status
/// bar; no card when the screen is too small.
pub open spec fn spec_card_layout(lines: Seq<Seq<char>>, w: u16, h: u16) -> Option<CardLayout> {
    let widest = match max_width(lines) {
        Some(m) => m,
        None => 20,
    };
    let inner = if widest < 24 {
        24
    } else if widest > 40 {
        40
    } else {
        widest
    };
    let bw = inner + 2;
    let bh = (lines.len() as u16) + 2;
    if w < bw || h < bh + 1 {
        None
    } else {
        Some(
            CardLayout {
                x0: (w - bw) as u16,
                y0: (h - 1 - bh) as u16,
                width: bw as u16,
                height: bh as u16,
            },
        )
    }
}

/// Where the details card for `lines` sits on a `w × h` screen, if it fits.
pub fn card_layout(lines: &Vec<String>, w: u16, h: u16) -> (c: Option<CardLayout>)
    requires
        (lines@.len() as u16) + 3 <= u16::MAX,
    ensures
        c == spec_card_layout(lines@.map_values(|l: String| l@), w, h),
{
    let widest = match widest(lines) {
        Some(m) => m,
        None => 20,
    };
    let inner: u16 = if widest < 24 {
        24
    } else if widest > 40 {
        40
    } else {
        widest as u16
    };
    let bw = inner + 2;
    let bh = (lines.len() as u16) + 2;
    if w < bw || h < bh + 1 {
        None
    } else {
        Some(CardLayout { x0: w - bw, y0: h - 1 - bh, width: bw, height: bh })
    }
}

/// The character of the details card's frame at (`row`, `col`) of a card
/// `bw` wide and `bh` tall: corners, then edges, blank inside.
pub open spec fn spec_border_char(row: u16, col: u16, bw: u16, bh: u16) -> char {
    if row == 0 && col == 0 {
        '┌'
    } else if row == 0 && col == bw - 1 {
        '┐'
    } else if col == 0 && row == bh - 1 {
        '└'
    } else if row == bh - 1 && col == bw - 1 {
        '┘'
    } else if row == 0 {
        '─'
    } else if col == 0 {
        '│'
    } else if col == bw - 1 {
        '│'
    } else if row == bh - 1 {
        '─'
    } else {
        ' '
    }
}

/// The character of the details card's frame at (`row`, `col`).
pub fn border_char(row: u16, col: u16, bw: u16, bh: u16) -> (c: char)
    requires
        bw >= 1,
        bh >= 1,
    ensures
        c == spec_border_char(row, col, bw, bh),
{
    if row == 0 && col == 0 {
        '┌'
    } else if row == 0 && col == bw - 1 {
        '┐'
    } else if col == 0 && row == bh - 1 {
        '└'
    } else if row == bh - 1 && col == bw - 1 {
        '┘'
    } else if row == 0 || col == 0 {
        if row == 0 {
            '─'
        } else {
            '│'
        }
    } else if row == bh - 1 || col == bw - 1 {
        if col == bw - 1 {
            '│'
        } else {
            '─'
        }
    } else {
        ' '
    }
}

/// Column where the trace panel starts on a screen `w` wide: the panel is
/// as wide as its widest line (at least 24) plus a margin of 2, flush right.
pub open spec fn spec_panel_column(lines: Seq<Seq<char>>, w: u16) -> u16 {
    let widest = match max_width(lines) {
        Some(m) => m,
        None => 20,
    };
    let panel = ((if widest < 24 { 24 } else { widest }) as u16) + 2;
    if w >= panel {
        (w - panel) as u16
    } else {
        0
    }
}

/// Column where the trace panel starts on a screen `w` wide.
pub fn panel_column(lines: &Vec<String>, w: u16) -> (x: u16)
    requires
        max_width(lines@.map_values(|l: String| l@)) matches Some(m) ==> ((if m < 24 {
            24
        } else {
            m
        }) as u16) + 2 <= u16::MAX,
    ensures
        x == spec_panel_column(lines@.map_values(|l: String| l@), w),
{
    let widest = match widest(lines) {
        Some(m) => m,
        None => 20,
    };
    let panel = (if widest < 24 {
        24
    } else {
        widest
    }) as u16 + 2;
    if w >= panel {
        w - panel
    } else {
        0
    }
}

/// The names in `current` that `previous` does not hold, in `current`'s
/// order: the bodies that newly became unbound (or impact-bound) since the
/// last frame, each of which gets a trace.
pub open spec fn spec_newly_flagged(current: Seq<Seq<char>>, previous: Seq<Seq<char>>) -> Seq<Seq<char>>
    decreases current.len(),
{
    if current.len() == 0 {
        Seq::empty()
    } else {
        let rest = spec_newly_flagged(current.drop_last(), previous);
        if previous.contains(current.last()) {
            rest
        } else {
            rest.push(current.last())
        }
    }
}

/// Every newly flagged name is flagged now and was not before, and every name
/// flagged now but not before is reported.
pub proof fn lemma_newly_flagged(current: Seq<Seq<char>>, previous: Seq<Seq<char>>)
    ensures
        forall|n: Seq<char>| #[trigger] spec_newly_flagged(current, previous).contains(n) <==> (
        current.contains(n) && !previous.contains(n)),
    decreases current.len(),
{
    if current.len() > 0 {
        let rest = current.drop_last();
        lemma_newly_flagged(rest, previous);
        assert forall|n: Seq<char>| #[trigger] spec_newly_flagged(current, previous).contains(n) <==> (
        current.contains(n) && !previous.contains(n)) by {
            let r = spec_newly_flagged(rest, previous);
            if current.contains(n) {
                let k = choose|k: int| 0 <= k < current.len() && current[k] == n;
                if k < current.len() - 1 {
                    assert(rest[k] == n);
                }
            }
            if rest.contains(n) {
                let k = choose|k: int| 0 <= k < rest.len() && rest[k] == n;
                assert(current[k] == n);
            }
            if !previous.contains(current.last()) {
                let t = r.push(current.last());
                if t.contains(n) && n != current.last() {
                    let k = choose|k: int| 0 <= k < t.len() && t[k] == n;
                    assert(r[k] == n);
                }
                if r.contains(n) {
                    let k = choose|k: int| 0 <= k < r.len() && r[k] == n;
                    assert(t[k] == n);
                }
                assert(t[r.len() as int] == current.last());
            }
            assert(current[current.len() - 1] == current.last());
        }
    }
}

/// The names in `current` that `previous` does not hold, in order.
pub fn newly_flagged(current: &Vec<String>, previous: &Vec<String>) -> (v: Vec<String>)
    ensures
        names_of(v@) == spec_newly_flagged(names_of(current@), names_of(previous@)),
{
    let ghost cur = names_of(current@);
    let ghost prev = names_of(previous@);
    let mut v: Vec<String> = Vec::new();
    let mut i: usize = 0;
    while i < current.len()
        invariant
            i <= current@.len(),
            cur == names_of(current@),
            prev == names_of(previous@),
            names_of(v@) == spec_newly_flagged(cur.take(i as int), prev),
        decreases current@.len() - i,
    {
        let name = current[i].as_str();
        let seen = find_name(previous, name);
        proof {
            lemma_first_named(prev, name@);
            assert(cur.take(i + 1).drop_last() =~= cur.take(i as int));
            assert(cur.take(i + 1).last() == name@);
            if seen is None {
                assert(!prev.contains(name@));
            } else {
                let q = first_named(prev, name@)->0;
                assert(prev[q] == name@);
            }
        }
        if seen.is_none() {
            let ghost before = v@;
            v.push(current[i].clone());
            assert(names_of(v@) =~= names_of(before).push(name@));
        }
        i += 1;
    }
    assert(cur.take(current@.len() as int) =~= cur);
    v
}

/// The status bar's state word: rewinding, paused, or running.
pub open spec fn spec_run_state_label(scrubbing: bool, paused: bool) -> Seq<char> {
    if scrubbing {
        "◀ REWIND"@
    } else if paused {
        "PAUSED"@
    } else {
        "RUN"@
    }
}

/// The status bar's state word.
pub fn run_state_label(scrubbing: bool, paused: bool) -> (s: &'static str)
    ensures
        s@ == spec_run_state_label(scrubbing, paused),
{
    if scrubbing {
        "◀ REWIND"
    } else if paused {
        "PAUSED"
    } else {
        "RUN"
    }
}

/// The status message an action shows, if it shows one: the new scale mode
/// or view, or the scale name that was not recognised.
pub open spec fn spec_action_status(a: ActionView) -> Option<Seq<char>> {
    match a {
        ActionView::ScaleChanged(m) => Some("scale: "@ + m.spec_name()),
        ActionView::UnknownScale(arg) => Some("unknown scale '"@ + arg + "'"@),
        ActionView::ViewChanged(r) => Some("view: "@ + r.spec_name()),
        _ => None,
    }
}

/// The status message an action shows, if any.
pub fn action_status(a: &Action) -> (r: Option<String>)
    ensures
        match r {
            Some(m) => spec_action_status(a@) == Some(m@),
            None => spec_action_status(a@) is None,
        },
{
    match a {
        Action::ScaleChanged(m) => {
            let mut s = "scale: ".to_owned();
            push_str(&mut s, m.name());
            Some(s)
        },
        Action::UnknownScale(arg) => {
            let mut s = "unknown scale '".to_owned();
            push_str(&mut s, arg.as_str());
            push_str(&mut s, "'");
            Some(s)
        },
        Action::ViewChanged(r) => {
            let mut s = "view: ".to_owned();
            push_str(&mut s, r.name());
            Some(s)
        },
        _ => None,
    }
}

/// What the status bar says when the simulation reports an event or a
/// command fails.
pub enum Notice {
    /// Two bodies merged.
    Collision { survivor: String, other: String },
    /// A body newly became unbound.
    Escape(String),
    /// A body's orbit newly dips below its attractor's surface.
    Decay(String),
    /// A `:` command was refused.
    CommandError(String),
}

/// The status text of a notice.
pub open spec fn spec_notice_text(n: Notice) -> Seq<char> {
    match n {
        Notice::Collision { survivor, other } => "collision: "@ + survivor@ + " + "@ + other@,
        Notice::Escape(name) => "escape: "@ + name@ + " is now unbound"@,
        Notice::Decay(name) => "decay: "@ + name@ + "'s orbit will impact"@,
        Notice::CommandError(e) => "error: "@ + e@,
    }
}

impl Notice {
    /// The text the status bar shows for the notice.
    pub fn text(&self) -> (s: String)
        ensures
            s@ == spec_notice_text(*self),
    {
        match self {
            Notice::Collision { survivor, other } => {
                let mut s = "collision: ".to_owned();
                push_str(&mut s, survivor.as_str());
                push_str(&mut s, " + ");
                push_str(&mut s, other.as_str());
                s
            },
            Notice::Escape(n) => {
                let mut s = "escape: ".to_owned();
                push_str(&mut s, n.as_str());
                push_str(&mut s, " is now unbound");
                s
            },
            Notice::Decay(n) => {
                let mut s = "decay: ".to_owned();
                push_str(&mut s, n.as_str());
                push_str(&mut s, "'s orbit will impact");
                s
            },
            Notice::CommandError(e) => {
                let mut s = "error: ".to_owned();
                push_str(&mut s, e.as_str());
                s
            },
        }
    }
}

/// How many trace-panel lines fit on a screen `h` rows tall: the panel starts
/// on row 1 and stops above the status bar.
pub open spec fn spec_panel_line_count(lines: nat, h: u16) -> nat {
    let room: nat = if h >= 2 {
        (h - 2) as nat
    } else {
        0
    };
    if lines <= room {
        lines
    } else {
        room
    }
}

/// How many trace-panel lines fit on a screen `h` rows tall.
pub fn panel_line_count(lines: usize, h: u16) -> (n: usize)
    ensures
        n == spec_panel_line_count(lines as nat, h),
{
    let room: usize = if h >= 2 {
        (h - 2) as usize
    } else {
        0
    };
    if lines <= room {
        lines
    } else {
        room
    }
}

/// The cells of a details card's frame and background, row by row: the
/// character at each (column, row) of the card's area.
pub open spec fn spec_card_cells(c: CardLayout) -> Seq<(u16, u16, char)> {
    Seq::new(
        (c.width * c.height) as nat,
        |k: int|
            {
                let row = (k / (c.width as int)) as u16;
                let col = (k % (c.width as int)) as u16;
                ((c.x0 + col) as u16, (c.y0 + row) as u16, spec_border_char(row, col, c.width, c.height))
            },
    )
}

/// The cells of a card's frame and background, row by row.
pub fn card_cells(c: CardLayout) -> (cells: Vec<(u16, u16, char)>)
    requires
        c.width >= 1,
        c.height >= 1,
        c.x0 + c.width <= u16::MAX,
        c.y0 + c.height <= u16::MAX,
    ensures
        cells@ == spec_card_cells(c),
{
    let mut cells: Vec<(u16, u16, char)> = Vec::new();
    let mut row: u16 = 0;
    while row < c.height
        invariant
            row <= c.height,
            c.width >= 1,
            c.height >= 1,
            c.x0 + c.width <= u16::MAX,
            c.y0 + c.height <= u16::MAX,
            cells@.len() == row * c.width,
            forall|k: int| 0 <= k < cells@.len() ==> #[trigger] cells@[k] == spec_card_cells(c)[k],
        decreases c.height - row,
    {
        let mut col: u16 = 0;
        while col < c.width
            invariant
                row < c.height,
                col <= c.width,
                c.width >= 1,
                c.height >= 1,
                c.x0 + c.width <= u16::MAX,
                c.y0 + c.height <= u16::MAX,
                cells@.len() == row * c.width + col,
                forall|k: int| 0 <= k < cells@.len() ==> #[trigger] cells@[k] == spec_card_cells(c)[k],
            decreases c.width - col,
        {
            let ghost k = row as int * c.width as int + col as int;
            assert(k / (c.width as int) == row as int && k % (c.width as int) == col as int) by {
                let w = c.width as int;
                assert(k == w * (row as int) + col as int) by (nonlinear_arith)
                    requires
                        k == row as int * w + col as int,
                ;
                vstd::arithmetic::div_mod::lemma_div_multiples_vanish_fancy(row as int, col as int, w);
                vstd::arithmetic::div_mod::lemma_mod_multiples_vanish(row as int, col as int, w);
                vstd::arithmetic::div_mod::lemma_small_mod(col as nat, c.width as nat);
            }
            assert(k < (c.width * c.height) as int) by (nonlinear_arith)
                requires
                    k == row * c.width + col,
                    row < c.height,
                    col < c.width,
            ;
            cells.push((c.x0 + col, c.y0 + row, border_char(row, col, c.width, c.height)));
            col += 1;
        }
        assert((row + 1) * c.width == row * c.width + c.width) by (nonlinear_arith);
        row += 1;
    }
    assert(c.height * c.width == c.width * c.height) by (nonlinear_arith);
    assert(cells@ =~= spec_card_cells(c));
    cells
}

/// The status texts: a scale or view change names the new mode, an unknown
/// scale quotes the word given, and every notice names its bodies (or the
/// error) unaltered; the state word is REWIND over PAUSED over RUN.
pub proof fn lemma_status_texts(m: ScaleMode, r: Representation, arg: Seq<char>, a: String, b: String)
    ensures
        spec_action_status(ActionView::ScaleChanged(m)) == Some("scale: "@ + m.spec_name()),
        spec_action_status(ActionView::ViewChanged(r)) == Some("view: "@ + r.spec_name()),
        spec_action_status(ActionView::UnknownScale(arg)) == Some("unknown scale '"@ + arg + "'"@),
        spec_action_status(ActionView::Quit) is None,
        spec_action_status(ActionView::Nothing) is None,
        spec_notice_text(Notice::Collision { survivor: a, other: b }) == "collision: "@ + a@ + " + "@ + b@,
        spec_notice_text(Notice::Escape(a)) == "escape: "@ + a@ + " is now unbound"@,
        spec_notice_text(Notice::Decay(a)) == "decay: "@ + a@ + "'s orbit will impact"@,
        spec_notice_text(Notice::CommandError(a)) == "error: "@ + a@,
        forall|p: bool| spec_run_state_label(true, p) == "◀ REWIND"@,
        spec_run_state_label(false, true) == "PAUSED"@,
        spec_run_state_label(false, false) == "RUN"@,
{
}

} // verus!
