//! Simulation vocabulary: body kinds, orbit classes and trail bookkeeping.

pub mod body;
pub mod orbit;
pub mod trail;
