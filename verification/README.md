# solaris-tty

A real-time 3D astrophysics simulator for the terminal: a free-flying camera
through a Newtonian Solar System drawn in shaded half-block spheres and braille
orbital trails, with the equations behind every big event shown on screen.

## Layout

- `src/` — the library, verified with Verus:
  - `render/` — the frame buffer (depth-tested cells, half-block pixel layer,
    braille trail layer, compositing, dirty-cell diffing), the terminal
    operations that redraw changed cells, cells and colours,
    scale modes, representations and fills, quality presets, surface colours,
    body orientation parameters, the starfield's random source;
  - `scenario/` — the bundled scenario files, the scenario defaults, and the
    placement plan that decides parents, Keplerian spreads and refusals;
  - `sim/` — body kinds and lookup by name, orbit status lines, trails;
  - `command.rs` — the `:` command line;
  - `app.rs` — the interactive session's key handling and panel layout;
  - `cli.rs` — command-line arguments and JSON string escaping;
  - `trace.rs` — fixed-layout physics-trace panels;
  - `text.rs` — character-level helpers.
- `app/` — the program around the library: the `f64` physics (gravity,
  leapfrog integration, Keplerian elements, collisions), perspective rendering,
  TOML parsing, the terminal and the recorder.
- `tests/` — tests of the library's public API.

## Bundled scenarios

`solar`, `jupiter`, `saturn`, `pluto-charon`, `earth-moon`, `pythagorean`,
`flyby`, `unstable`, `trappist1`, `kozai`, `ptolemaic` and `retrograde`, plus
`vortex` (the Solar data under the vortex view). The `binary`, `figure8` and
`trojans` scenarios are not bundled: their scenario files were not available,
and asking for one of them is refused as an unknown scenario.
