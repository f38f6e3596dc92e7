//! Terminal rendering: cells, the frame buffer, and presentation choices.

pub mod cell;
pub mod framebuffer;
pub mod orientation;
pub mod quality;
pub mod scale;
pub mod scene;
pub mod session;
pub mod starfield;
pub mod surface;
pub mod terminal;
