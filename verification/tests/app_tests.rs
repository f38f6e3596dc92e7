//! The interactive session's key handling and panel layout.

use solaris_tty::app::{
    adjust_index, border_char, card_layout, initial_selection, merge_plan, newly_flagged,
    panel_column, Action, CardLayout, Controls, Key, TraceMode, MAX_STEPS_PER_FRAME,
};
use solaris_tty::render::scale::ScaleMode;
use solaris_tty::render::scene::Representation;

fn session() -> Controls {
    Controls::new(1, 8, false, Representation::Heliocentric, ScaleMode::Compressed)
}

fn strings(v: &[&str]) -> Vec<String> {
    v.iter().map(|s| s.to_string()).collect()
}

#[test]
fn new_session_starts_live_and_compact() {
    let c = session();
    assert_eq!(c.selected, 1);
    assert_eq!(c.details, None);
    assert!(!c.paused);
    assert_eq!(c.trace_mode, TraceMode::Compact);
    assert_eq!(c.command_line(), None);
    assert_eq!(c.hist_cursor, None);
}

#[test]
fn tab_and_backtab_cycle_the_selection() {
    let mut c = session();
    assert!(matches!(c.handle_key(Key::Tab, 3, 0), Action::ClearPanel));
    assert_eq!(c.selected, 2);
    c.handle_key(Key::Tab, 3, 0);
    assert_eq!(c.selected, 0);
    c.handle_key(Key::BackTab, 3, 0);
    assert_eq!(c.selected, 2);
    c.handle_key(Key::BackTab, 3, 0);
    assert_eq!(c.selected, 1);
}

#[test]
fn quitting_keys() {
    let mut c = session();
    assert!(matches!(c.handle_key(Key::Char('q'), 3, 0), Action::Quit));
    assert!(matches!(c.handle_key(Key::Esc, 3, 0), Action::Quit));
    assert!(matches!(c.handle_key(Key::Interrupt, 3, 0), Action::Quit));
}

#[test]
fn movement_keys_ask_for_camera_moves() {
    let mut c = session();
    assert!(matches!(c.handle_key(Key::Char('w'), 3, 0), Action::MoveForward(1)));
    assert!(matches!(c.handle_key(Key::Char('s'), 3, 0), Action::MoveForward(-1)));
    assert!(matches!(c.handle_key(Key::Char('a'), 3, 0), Action::MoveRight(-1)));
    assert!(matches!(c.handle_key(Key::Char('d'), 3, 0), Action::MoveRight(1)));
    assert!(matches!(c.handle_key(Key::Char('r'), 3, 0), Action::MoveUp(1)));
    assert!(matches!(c.handle_key(Key::Char('f'), 3, 0), Action::MoveUp(-1)));
    assert!(matches!(c.handle_key(Key::Left, 3, 0), Action::Turn(-1, 0)));
    assert!(matches!(c.handle_key(Key::Down, 3, 0), Action::Turn(0, -1)));
}

#[test]
fn command_line_types_edits_and_submits() {
    let mut c = session();
    assert!(matches!(c.handle_key(Key::Char(':'), 3, 0), Action::OpenCommandLine));
    for ch in "inspect Marz".chars() {
        c.handle_key(Key::Char(ch), 3, 0);
    }
    c.handle_key(Key::Backspace, 3, 0);
    c.handle_key(Key::Char('s'), 3, 0);
    assert_eq!(c.command_line(), Some("inspect Mars".to_string()));
    // While the line is open, `q` is typed rather than quitting.
    c.handle_key(Key::Char('q'), 3, 0);
    c.handle_key(Key::Backspace, 3, 0);
    match c.handle_key(Key::Enter, 3, 0) {
        Action::RunCommand(line) => assert_eq!(line, "inspect Mars"),
        _ => panic!("expected a command to run"),
    }
    assert_eq!(c.command_line(), None);
}

#[test]
fn escape_closes_the_command_line() {
    let mut c = session();
    c.handle_key(Key::Char(':'), 3, 0);
    c.handle_key(Key::Char('x'), 3, 0);
    assert!(matches!(c.handle_key(Key::Esc, 3, 0), Action::Nothing));
    assert_eq!(c.command_line(), None);
}

#[test]
fn scale_command_is_handled_by_the_session() {
    let mut c = session();
    c.handle_key(Key::Char(':'), 3, 0);
    for ch in " scale  realistic ".chars() {
        c.handle_key(Key::Char(ch), 3, 0);
    }
    assert!(matches!(c.handle_key(Key::Enter, 3, 0), Action::ScaleChanged(ScaleMode::Realistic)));
    assert_eq!(c.scale_mode, ScaleMode::Realistic);
    c.handle_key(Key::Char(':'), 3, 0);
    for ch in "scale huge".chars() {
        c.handle_key(Key::Char(ch), 3, 0);
    }
    match c.handle_key(Key::Enter, 3, 0) {
        Action::UnknownScale(arg) => assert_eq!(arg, "huge"),
        _ => panic!("expected an unknown scale"),
    }
    assert_eq!(c.scale_mode, ScaleMode::Realistic);
}

#[test]
fn speed_keys_stay_within_bounds() {
    let mut c = session();
    c.handle_key(Key::Char(']'), 3, 0);
    assert_eq!(c.steps_per_frame, 8 + 4 + 1);
    c.handle_key(Key::Char('['), 3, 0);
    assert_eq!(c.steps_per_frame, 13 * 2 / 3);
    c.steps_per_frame = 1;
    c.handle_key(Key::Char('['), 3, 0);
    assert_eq!(c.steps_per_frame, 1);
    c.steps_per_frame = 3999;
    c.handle_key(Key::Char(']'), 3, 0);
    assert_eq!(c.steps_per_frame, MAX_STEPS_PER_FRAME);
}

#[test]
fn toggles_and_cycles() {
    let mut c = session();
    assert!(matches!(c.handle_key(Key::Char('m'), 3, 0), Action::ClearPanel));
    assert_eq!(c.trace_mode, TraceMode::Expanded);
    assert!(matches!(c.handle_key(Key::Char('v'), 3, 0), Action::ScaleChanged(ScaleMode::Realistic)));
    assert!(matches!(c.handle_key(Key::Char('c'), 3, 0), Action::ViewChanged(_)));
    c.handle_key(Key::Char('z'), 3, 0);
    assert!(c.screensaver);
    assert_eq!(TraceMode::Debug.cycle(), TraceMode::Compact);
}

#[test]
fn rewind_scrubs_back_and_resumes() {
    let mut c = session();
    // Stepping forward while live takes a live step.
    assert!(matches!(c.handle_key(Key::Char('.'), 3, 5), Action::StepLive));
    // Scrubbing back from the live edge pauses on the snapshot before the newest.
    assert!(matches!(c.handle_key(Key::Char(','), 3, 5), Action::Restore(3)));
    assert!(c.paused);
    assert_eq!(c.hist_cursor, Some(3));
    assert!(matches!(c.handle_key(Key::Char(','), 3, 5), Action::Restore(2)));
    assert!(matches!(c.handle_key(Key::Char('.'), 3, 5), Action::Restore(3)));
    // The last step forward goes back to the newest snapshot.
    assert!(matches!(c.handle_key(Key::Char('.'), 3, 5), Action::RestoreLatest));
    assert_eq!(c.hist_cursor, None);
    // Resuming from a scrubbed position truncates the history after it.
    c.handle_key(Key::Char(','), 3, 5);
    assert!(matches!(c.handle_key(Key::Char(' '), 3, 5), Action::TruncateHistory(4)));
    assert!(!c.paused);
    assert_eq!(c.hist_cursor, None);
}

#[test]
fn scrubbing_an_empty_history_does_nothing() {
    let mut c = session();
    assert!(matches!(c.handle_key(Key::Char(','), 3, 0), Action::Nothing));
    assert!(!c.paused);
    c.handle_key(Key::Char(' '), 3, 0);
    assert!(c.paused);
}

#[test]
fn collisions_shift_stored_indices() {
    let mut i = 4;
    adjust_index(&mut i, 2, 1);
    assert_eq!(i, 3);
    let mut j = 2;
    adjust_index(&mut j, 2, 1);
    assert_eq!(j, 1);
    let mut k = 0;
    adjust_index(&mut k, 2, 1);
    assert_eq!(k, 0);
    // The heavier body survives; it moves down when the lost one came first.
    assert_eq!(merge_plan(1, 3, true), (1, 3, 1));
    assert_eq!(merge_plan(1, 3, false), (3, 1, 2));
    let mut c = session();
    c.details = Some(3);
    c.on_collision(1, 2);
    assert_eq!(c.selected, 2);
    assert_eq!(c.details, Some(2));
}

#[test]
fn picking_and_restoring_keep_indices_valid() {
    let mut c = session();
    c.on_pick(Some(4));
    assert_eq!((c.selected, c.details), (4, Some(4)));
    c.on_pick(None);
    assert_eq!((c.selected, c.details), (4, None));
    c.details = Some(3);
    c.after_restore(3);
    assert_eq!((c.selected, c.details), (2, None));
}

#[test]
fn initial_selection_prefers_earth() {
    assert_eq!(initial_selection(Some(3), 9), 3);
    assert_eq!(initial_selection(None, 9), 1);
    assert_eq!(initial_selection(None, 1), 0);
}

#[test]
fn newly_flagged_keeps_only_new_names_in_order() {
    let now = strings(&["Comet", "Mars", "Probe"]);
    let before = strings(&["Mars"]);
    assert_eq!(newly_flagged(&now, &before), strings(&["Comet", "Probe"]));
    assert_eq!(newly_flagged(&before, &now), Vec::<String>::new());
}

#[test]
fn details_card_is_sized_to_its_lines() {
    let lines = strings(&["Earth", "mass 5.97e24 kg"]);
    assert_eq!(card_layout(&lines, 80, 24), Some(CardLayout { x0: 54, y0: 19, width: 26, height: 4 }));
    let long = strings(&["x".repeat(50).as_str()]);
    assert_eq!(card_layout(&long, 80, 24), Some(CardLayout { x0: 38, y0: 20, width: 42, height: 3 }));
    assert_eq!(card_layout(&lines, 20, 24), None);
    assert_eq!(border_char(0, 0, 26, 4), '┌');
    assert_eq!(border_char(0, 25, 26, 4), '┐');
    assert_eq!(border_char(3, 0, 26, 4), '└');
    assert_eq!(border_char(3, 25, 26, 4), '┘');
    assert_eq!(border_char(0, 5, 26, 4), '─');
    assert_eq!(border_char(2, 0, 26, 4), '│');
    assert_eq!(border_char(2, 5, 26, 4), ' ');
}

#[test]
fn trace_panel_sits_flush_right() {
    assert_eq!(panel_column(&strings(&["short"]), 80), 80 - 26);
    assert_eq!(panel_column(&strings(&["y".repeat(30).as_str()]), 80), 80 - 32);
    assert_eq!(panel_column(&strings(&["short"]), 10), 0);
}

use solaris_tty::trace::{collision_lines, load_lines, CollisionReport};

#[test]
fn collision_trace_lays_out_the_figures() {
    let lines = collision_lines(&CollisionReport {
        survivor_name: "Earth".to_string(),
        other_name: "Theia".to_string(),
        m_survivor: "5.972e24".to_string(),
        m_other: "6.400e23".to_string(),
        v_rel: "4.000e0".to_string(),
        merged_mass: "6.612e24".to_string(),
        merged_speed: "2.978e1".to_string(),
    });
    assert_eq!(lines.len(), 11);
    assert_eq!(lines[0], "✦ Collision: Earth + Theia");
    assert_eq!(lines[1], "  m₁ = 5.972e24 kg");
    assert_eq!(lines[3], "  v_rel = |v₁ − v₂| = 4.000e0 km/s");
    assert_eq!(lines[4], "");
    assert_eq!(lines[5], "Merged body: Earth");
    assert_eq!(lines[7], "    = 6.612e24 kg");
    assert_eq!(lines[9], "    |v| = 2.978e1 km/s");
    assert_eq!(lines[10], "  (momentum conserved)");
}

#[test]
fn load_trace_reports_the_correction() {
    let lines = load_lines("17", "1.0e-3", "0", "-2.5e-4");
    assert_eq!(lines.len(), 6);
    assert_eq!(lines[0], "Loaded 17 bodies");
    assert_eq!(lines[3], "  V_com = [1.0e-3, 0, -2.5e-4]");
    assert_eq!(lines[5], "  → barycentre stays put");
}

use solaris_tty::app::{action_status, run_state_label, Notice};

#[test]
fn status_bar_texts() {
    assert_eq!(run_state_label(true, true), "◀ REWIND");
    assert_eq!(run_state_label(false, true), "PAUSED");
    assert_eq!(run_state_label(false, false), "RUN");
    assert_eq!(action_status(&Action::ScaleChanged(ScaleMode::Educational)), Some("scale: educational".to_string()));
    assert_eq!(action_status(&Action::UnknownScale("huge".to_string())), Some("unknown scale 'huge'".to_string()));
    assert_eq!(action_status(&Action::ViewChanged(Representation::Synodic)), Some("view: co-rotating".to_string()));
    assert_eq!(action_status(&Action::Quit), None);
    let collision = Notice::Collision { survivor: "Earth".to_string(), other: "Theia".to_string() };
    assert_eq!(collision.text(), "collision: Earth + Theia");
    assert_eq!(Notice::Escape("Probe".to_string()).text(), "escape: Probe is now unbound");
    assert_eq!(Notice::Decay("Phobos".to_string()).text(), "decay: Phobos's orbit will impact");
    assert_eq!(Notice::CommandError("empty command".to_string()).text(), "error: empty command");
}

use solaris_tty::app::remove_lost;

#[test]
fn removing_the_lost_body_keeps_indices_on_their_bodies() {
    let mut bodies = vec!["Sun", "Earth", "Theia", "Moon"];
    let (keep, drop, survivor) = merge_plan(2, 1, true);
    let removed = remove_lost(&mut bodies, drop);
    assert_eq!(removed, "Earth");
    assert_eq!(bodies[survivor], "Theia");
    let mut moon = 3;
    adjust_index(&mut moon, drop, survivor);
    assert_eq!(bodies[moon], "Moon");
    assert_eq!(keep, 2);
}

use solaris_tty::app::{card_cells, panel_line_count};

#[test]
fn panel_lines_stop_above_the_status_bar() {
    assert_eq!(panel_line_count(5, 24), 5);
    assert_eq!(panel_line_count(30, 24), 22);
    assert_eq!(panel_line_count(3, 1), 0);
    assert_eq!(panel_line_count(3, 2), 0);
}

#[test]
fn card_cells_frame_the_card() {
    let cells = card_cells(CardLayout { x0: 10, y0: 5, width: 3, height: 3 });
    let text: String = cells.iter().map(|c| c.2).collect();
    assert_eq!(text, "┌─┐│ │└─┘");
    assert_eq!((cells[0].0, cells[0].1), (10, 5));
    assert_eq!((cells[8].0, cells[8].1), (12, 7));
}
