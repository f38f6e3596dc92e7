//! solaris-tty: the verified core of a terminal astrophysics simulator.

pub mod app;
pub mod cli;
pub mod command;
pub mod render;
pub mod scenario;
pub mod sim;
pub mod text;
pub mod trace;

pub use scenario::bundled::{scenario_toml, SOLAR_TOML};
