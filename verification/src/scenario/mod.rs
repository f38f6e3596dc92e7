//! Scenarios: the bundled TOML texts, their schema and the rules that turn a
//! parsed scenario into a simulation plan.

pub mod bundled;
pub mod schema;
pub mod loader;
