//! Presentation choices and the frame buffer, checked through the public API.

use solaris_tty::render::scene::Fill;

#[test]
fn fill_name_from_name_cycle_roundtrip() {
    assert_eq!(Fill::from_name("ascii"), Some(Fill::Ascii));
    assert_eq!(Fill::from_name("text"), Some(Fill::Text));
    assert_eq!(Fill::from_name("blocks"), Some(Fill::Blocks));
    assert_eq!(Fill::from_name("nope"), None);
    assert_eq!(Fill::Blocks.name(), "blocks");
    // cycle visits all three and returns home.
    let mut f = Fill::Blocks;
    f = f.cycle();
    f = f.cycle();
    f = f.cycle();
    assert_eq!(f, Fill::Blocks);
}

use solaris_tty::render::cell::{Cell, Color, FRONT_DEPTH};
use solaris_tty::render::framebuffer::{braille_bit, FrameBuffer};
use solaris_tty::render::orientation::{jupiter_orientation, UniformOrientation, UNITS_PER_DEGREE};
use solaris_tty::render::quality::{RenderQuality, SurfaceDetail};
use solaris_tty::render::scale::ScaleMode;
use solaris_tty::render::scene::{body_color, Representation};
use solaris_tty::render::session::RenderOptions;
use solaris_tty::render::starfield::StarRng;
use solaris_tty::render::surface::{jupiter_band_color, uniform_albedo};
use solaris_tty::sim::body::Kind;

#[test]
fn representation_names_round_trip_and_cycle() {
    let all = [
        Representation::Heliocentric,
        Representation::TopDown,
        Representation::Geocentric,
        Representation::Synodic,
        Representation::Helical,
        Representation::Vortex,
    ];
    for r in all {
        assert_eq!(Representation::from_name(r.name()), Some(r));
    }
    assert_eq!(Representation::from_name("topdown"), Some(Representation::TopDown));
    assert_eq!(Representation::from_name("synodic"), Some(Representation::Synodic));
    assert_eq!(Representation::from_name("vortex"), Some(Representation::Vortex));
    assert_eq!(Representation::Vortex.name(), "vortex");
    assert_eq!(Representation::Synodic.name(), "co-rotating");
    let mut r = Representation::Heliocentric;
    for expected in [
        Representation::TopDown,
        Representation::Geocentric,
        Representation::Synodic,
        Representation::Helical,
        Representation::Vortex,
        Representation::Heliocentric,
    ] {
        r = r.cycle();
        assert_eq!(r, expected);
    }
    assert!(Representation::TopDown.is_topdown());
    assert!(!Representation::Helical.is_topdown());
}

#[test]
fn scale_modes_round_trip_and_cycle() {
    for m in [ScaleMode::Compressed, ScaleMode::Realistic, ScaleMode::Educational] {
        assert_eq!(ScaleMode::from_name(m.name()), Some(m));
        assert_eq!(m.cycle().cycle().cycle(), m);
    }
    assert_eq!(ScaleMode::from_name("huge"), None);
    assert!(ScaleMode::Educational.labels_all());
    assert!(!ScaleMode::Compressed.labels_all());
}

#[test]
fn render_options_fall_back_to_defaults() {
    let o = RenderOptions::from_settings("realistic", "geocentric", "ascii", false);
    assert_eq!(o.scale, ScaleMode::Realistic);
    assert_eq!(o.representation, Representation::Geocentric);
    assert_eq!(o.fill, Fill::Ascii);
    assert!(!o.chrome);
    let d = RenderOptions::from_settings("?", "?", "?", true);
    assert_eq!(
        d,
        RenderOptions {
            scale: ScaleMode::Compressed,
            representation: Representation::Heliocentric,
            fill: Fill::Blocks,
            chrome: true,
        }
    );
}

#[test]
fn body_colours_by_name_then_kind() {
    assert_eq!(body_color("Earth", Kind::Planet), Color::Rgb { r: 90, g: 150, b: 235 });
    assert_eq!(body_color("Sun", Kind::Star), Color::Rgb { r: 255, g: 220, b: 90 });
    assert_eq!(body_color("Proxima", Kind::Star), Color::Rgb { r: 255, g: 240, b: 200 });
    assert_eq!(body_color("Io", Kind::Moon), Color::Rgb { r: 180, g: 180, b: 180 });
    assert_eq!(body_color("Theia", Kind::Debris), Color::Rgb { r: 160, g: 200, b: 160 });
}

#[test]
fn quality_presets() {
    let basic = RenderQuality::Basic.params();
    assert_eq!(basic.star_count, 200);
    assert_eq!(basic.surface_detail, SurfaceDetail::Off);
    assert!(!basic.hard_eclipses);
    let advanced = RenderQuality::Advanced.params();
    assert_eq!(advanced.ring_segments, 192);
    assert_eq!(advanced.ambient_light_hundredths, 6);
    assert!(advanced.hard_eclipses);
    assert_eq!(RenderQuality::Standard.params().motion_tick_count, 8);
}

#[test]
fn surface_colours() {
    let _ = uniform_albedo();
    // Adjacent Jupiter bands alternate in colour.
    assert_ne!(jupiter_band_color(0), jupiter_band_color(1));
}

#[test]
fn starfield_is_deterministic() {
    let mut a = StarRng::new();
    let mut b = StarRng::new();
    for _ in 0..100 {
        let x = a.next_bits();
        assert_eq!(x, b.next_bits());
        assert!(x < 1u64 << 53);
    }
    // The first draw, by hand: one xorshift64 step from the seed, then the
    // xorshift64* output function.
    let mut s: u64 = 0x9E37_79B9_7F4A_7C15;
    s ^= s >> 12;
    s ^= s << 25;
    s ^= s >> 27;
    let expected = s.wrapping_mul(0x2545_F491_4F6C_DD1D) >> 11;
    assert_eq!(StarRng::new().next_bits(), expected);
}

#[test]
fn jupiter_orientation_is_in_degree_units() {
    let j = jupiter_orientation();
    assert_eq!(j.rotation_rate_per_day, 125_570_000_000);
    assert_eq!(j.pole_dec, 644_953_800_000);
    assert_eq!(j.epoch_jd, 2_451_545 * UNITS_PER_DEGREE);
    let o = UniformOrientation::new(1, 2, 3, 4, 5);
    assert_eq!((o.pole_ra, o.pole_dec, o.prime_meridian, o.rotation_rate_per_day, o.epoch_jd), (1, 2, 3, 4, 5));
}

#[test]
fn new_buffer_is_blank_and_all_dirty() {
    let fb = FrameBuffer::new(4, 2);
    assert_eq!(fb.size(), (4, 2));
    assert_eq!(fb.pixel_height(), 4);
    assert_eq!(fb.to_text(), "    \n    \n");
    assert_eq!(fb.dirty_cells().len(), 8);
    assert!(fb.in_bounds(3, 1));
    assert!(!fb.in_bounds(4, 1));
    assert!(!fb.in_bounds(-1, 0));
}

#[test]
fn swap_makes_the_buffer_clean() {
    let mut fb = FrameBuffer::new(3, 2);
    fb.swap();
    assert!(fb.dirty_cells().is_empty());
    fb.write_str(1, 1, "ab", Color::White, Color::Reset);
    let dirty = fb.dirty_cells();
    assert_eq!(dirty.len(), 2);
    assert_eq!(dirty[0].0, 1);
    assert_eq!(dirty[0].1, 1);
    assert_eq!(dirty[0].2, Cell { ch: 'a', fg: Color::White, bg: Color::Reset, depth: FRONT_DEPTH });
    assert_eq!(dirty[1].2.ch, 'b');
}

#[test]
fn write_str_clips_at_the_right_edge() {
    let mut fb = FrameBuffer::new(4, 2);
    fb.write_str(2, 0, "hello", Color::White, Color::Reset);
    fb.write_str(0, 5, "off", Color::White, Color::Reset);
    assert_eq!(fb.to_text(), "  he\n    \n");
}

#[test]
fn pixels_composite_into_half_blocks() {
    let red = Color::Rgb { r: 255, g: 0, b: 0 };
    let blue = Color::Rgb { r: 0, g: 0, b: 255 };
    let mut fb = FrameBuffer::new(2, 1);
    fb.write_pixel(0, 0, red, 10);
    fb.write_pixel(0, 1, blue, 20);
    fb.write_pixel(1, 1, blue, 5);
    // A farther pixel does not overwrite a nearer one.
    fb.write_pixel(0, 0, blue, 3);
    fb.composite_pixels();
    assert_eq!(fb.to_text(), "▀▄\n");
    let cells = fb.dirty_cells();
    assert_eq!(cells[0].2, Cell { ch: '▀', fg: red, bg: blue, depth: 20 });
    assert_eq!(cells[1].2, Cell { ch: '▄', fg: blue, bg: Color::Reset, depth: 5 });
}

#[test]
fn braille_dots_accumulate() {
    assert_eq!(braille_bit(0, 0), 0x01);
    assert_eq!(braille_bit(1, 3), 0x80);
    assert_eq!(braille_bit(2, 0), 0);
    let mut fb = FrameBuffer::new(2, 1);
    fb.plot_braille(0, 0, 7, Color::Grey);
    fb.plot_braille(1, 3, 7, Color::Grey);
    fb.plot_braille(9, 9, 7, Color::Grey);
    fb.composite_braille();
    assert_eq!(fb.to_text(), "\u{2881} \n");
}

#[test]
fn depth_tested_writes_and_overlays() {
    let mut fb = FrameBuffer::new(1, 1);
    let near = Cell { ch: 'N', fg: Color::White, bg: Color::Reset, depth: 9 };
    let far = Cell { ch: 'F', fg: Color::White, bg: Color::Reset, depth: 2 };
    assert!(fb.write_depth(0, 0, near));
    assert!(!fb.write_depth(0, 0, far));
    assert_eq!(fb.to_text(), "N\n");
    fb.write_overlay(0, 0, far);
    assert_eq!(fb.to_text(), "F\n");
    fb.clear();
    assert_eq!(fb.to_text(), " \n");
    fb.resize(2, 1);
    assert_eq!(fb.to_text(), "  \n");
}

use solaris_tty::render::scene::{aligned_trail_index, reference_index, shows_label, trail_point_shown};

#[test]
fn representations_pick_their_reference_body() {
    let names: Vec<String> = ["Sun", "Earth", "Moon"].iter().map(|s| s.to_string()).collect();
    let kinds = vec![Kind::Star, Kind::Planet, Kind::Moon];
    assert_eq!(reference_index(Representation::Geocentric, &names, &kinds, 0), Some(1));
    assert_eq!(reference_index(Representation::Synodic, &names, &kinds, 2), Some(2));
    assert_eq!(reference_index(Representation::Synodic, &names, &kinds, 0), None);
    assert_eq!(reference_index(Representation::Synodic, &names, &kinds, 7), None);
    assert_eq!(reference_index(Representation::Heliocentric, &names, &kinds, 1), None);
    let no_earth: Vec<String> = vec!["Sun".to_string()];
    assert_eq!(reference_index(Representation::Geocentric, &no_earth, &vec![Kind::Star], 0), None);
}

#[test]
fn older_trail_points_are_thinned() {
    let shown: Vec<usize> = (0..8).filter(|&i| trail_point_shown(i, 8)).collect();
    assert_eq!(shown, vec![1, 3, 5, 6, 7]);
    assert_eq!(aligned_trail_index(7, 8, 3), Some(2));
    assert_eq!(aligned_trail_index(5, 8, 3), Some(0));
    assert_eq!(aligned_trail_index(4, 8, 3), None);
}

#[test]
fn moons_are_labelled_only_when_asked() {
    assert!(shows_label(true, ScaleMode::Compressed, Kind::Planet, false));
    assert!(!shows_label(true, ScaleMode::Compressed, Kind::Moon, false));
    assert!(shows_label(true, ScaleMode::Compressed, Kind::Moon, true));
    assert!(shows_label(true, ScaleMode::Educational, Kind::Moon, false));
    assert!(!shows_label(false, ScaleMode::Educational, Kind::Star, true));
}

use solaris_tty::render::terminal::{update_ops, TermOp};

#[test]
fn updates_set_colours_only_when_they_change() {
    let white = Color::White;
    let red = Color::Rgb { r: 255, g: 0, b: 0 };
    let cells = vec![
        (0u16, 0u16, Cell { ch: 'a', fg: white, bg: Color::Reset, depth: 1 }),
        (1, 0, Cell { ch: 'b', fg: white, bg: Color::Reset, depth: 1 }),
        (0, 1, Cell { ch: 'c', fg: red, bg: white, depth: 1 }),
        (1, 1, Cell { ch: 'd', fg: Color::Reset, bg: Color::Reset, depth: 1 }),
    ];
    assert_eq!(
        update_ops(&cells),
        vec![
            TermOp::MoveTo(0, 0),
            TermOp::Foreground(white),
            TermOp::Print('a'),
            TermOp::MoveTo(1, 0),
            TermOp::Print('b'),
            TermOp::MoveTo(0, 1),
            TermOp::Foreground(red),
            TermOp::Background(white),
            TermOp::Print('c'),
            TermOp::MoveTo(1, 1),
            TermOp::Foreground(Color::Reset),
            TermOp::Background(Color::Reset),
            TermOp::Print('d'),
        ]
    );
    assert!(update_ops(&Vec::new()).is_empty());
}

#[test]
fn replaying_updates_redraws_the_frame() {
    // A tiny terminal model: apply the operations to a grid showing the
    // previous frame and compare with the frame's text.
    let mut fb = FrameBuffer::new(3, 2);
    fb.write_str(0, 0, "abc", Color::White, Color::Reset);
    fb.swap();
    let mut screen: Vec<char> = "abc   ".chars().collect();
    fb.write_str(1, 1, "xy", Color::Yellow, Color::Reset);
    fb.write_str(0, 0, "A", Color::White, Color::Reset);
    let mut cursor = (0u16, 0u16);
    for op in update_ops(&fb.dirty_cells()) {
        match op {
            TermOp::MoveTo(x, y) => cursor = (x, y),
            TermOp::Print(ch) => {
                screen[cursor.1 as usize * 3 + cursor.0 as usize] = ch;
                cursor.0 += 1;
            },
            _ => {},
        }
    }
    let shown: String = screen.chunks(3).map(|row| row.iter().collect::<String>() + "\n").collect();
    assert_eq!(shown, fb.to_text());
}

#[test]
fn representation_from_name_cycle_includes_vortex() {
    assert_eq!(Representation::from_name("vortex"), Some(Representation::Vortex));
    assert_eq!(Representation::Vortex.name(), "vortex");
    // cycle visits all six and returns to Heliocentric.
    let mut r = Representation::Heliocentric;
    for _ in 0..6 {
        r = r.cycle();
    }
    assert_eq!(r, Representation::Heliocentric);
}
