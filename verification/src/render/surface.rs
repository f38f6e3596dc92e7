//! Planet surface models.

use vstd::prelude::*;

use crate::render::cell::Color;
use crate::render::quality::RenderQuality;

verus! {

/// Which surface pattern a body is drawn with.
#[derive(Clone, Copy, Debug, PartialEq, Eq, Structural)]
pub enum SurfaceModel {
    Uniform,
    Earth,
    Jupiter,
}

/// How much surface detail to draw.
#[derive(Clone, Copy, Debug, PartialEq, Eq, Structural)]
pub enum SurfaceDetail {
    Off,
    Broad,
    Detailed,
}

/// Surface drawing parameters.
#[derive(Clone, Copy, Debug, PartialEq, Eq, Structural)]
pub struct SurfaceParams {
    pub detail: SurfaceDetail,
    pub quality: RenderQuality,
}

/// The grey every body without a surface model is drawn in.
pub fn uniform_albedo() -> (c: Color)
    ensures
        c == (Color::Rgb { r: 128, g: 128, b: 128 }),
{
    Color::Rgb { r: 128, g: 128, b: 128 }
}

/// Colour of Jupiter's latitude band `band` (bands are 30° wide, counted
/// from the equator): light, dark and equatorial-zone bands repeat in turn.
pub open spec fn spec_jupiter_band_color(band: u32) -> Color {
    if band % 3 == 0 {
        Color::Rgb { r: 220, g: 180, b: 140 }
    } else if band % 3 == 1 {
        Color::Rgb { r: 180, g: 120, b: 80 }
    } else {
        Color::Rgb { r: 200, g: 160, b: 120 }
    }
}

/// Colour of Jupiter's latitude band `band`.
pub fn jupiter_band_color(band: u32) -> (c: Color)
    ensures
        c == spec_jupiter_band_color(band),
{
    match band % 3 {
        0 => Color::Rgb { r: 220, g: 180, b: 140 },
        1 => Color::Rgb { r: 180, g: 120, b: 80 },
        _ => Color::Rgb { r: 200, g: 160, b: 120 },
    }
}

} // verus!
