//! Rendering quality presets and the budgets each one allows.

use vstd::prelude::*;

verus! {

/// A rendering quality preset.
#[derive(Clone, Copy, Debug, PartialEq, Eq, Structural)]
pub enum RenderQuality {
    Basic,
    Standard,
    Advanced,
}

/// How much surface detail bodies are drawn with.
#[derive(Clone, Copy, Debug, PartialEq, Eq, Structural)]
pub enum SurfaceDetail {
    Off,
    Broad,
    Detailed,
}

/// The budgets of a quality preset. The ambient light level is held in
/// hundredths (16 stands for 0.16).
#[derive(Clone, Copy, Debug, PartialEq, Eq, Structural)]
pub struct QualityParams {
    pub star_count: usize,
    pub ring_segments: usize,
    pub old_trail_stride: usize,
    pub motion_tick_count: usize,
    pub ambient_light_hundredths: u8,
    pub surface_detail: SurfaceDetail,
    pub hard_eclipses: bool,
}

impl RenderQuality {
    pub open spec fn spec_params(self) -> QualityParams {
        match self {
            RenderQuality::Basic => QualityParams {
                star_count: 200,
                ring_segments: 48,
                old_trail_stride: 4,
                motion_tick_count: 0,
                ambient_light_hundredths: 16,
                surface_detail: SurfaceDetail::Off,
                hard_eclipses: false,
            },
            RenderQuality::Standard => QualityParams {
                star_count: 500,
                ring_segments: 96,
                old_trail_stride: 2,
                motion_tick_count: 8,
                ambient_light_hundredths: 10,
                surface_detail: SurfaceDetail::Broad,
                hard_eclipses: false,
            },
            RenderQuality::Advanced => QualityParams {
                star_count: 900,
                ring_segments: 192,
                old_trail_stride: 1,
                motion_tick_count: 12,
                ambient_light_hundredths: 6,
                surface_detail: SurfaceDetail::Detailed,
                hard_eclipses: true,
            },
        }
    }

    /// The budgets of this preset.
    pub fn params(&self) -> (p: QualityParams)
        ensures
            p == self.spec_params(),
    {
        match self {
            RenderQuality::Basic => QualityParams {
                star_count: 200,
                ring_segments: 48,
                old_trail_stride: 4,
                motion_tick_count: 0,
                ambient_light_hundredths: 16,
                surface_detail: SurfaceDetail::Off,
                hard_eclipses: false,
            },
            RenderQuality::Standard => QualityParams {
                star_count: 500,
                ring_segments: 96,
                old_trail_stride: 2,
                motion_tick_count: 8,
                ambient_light_hundredths: 10,
                surface_detail: SurfaceDetail::Broad,
                hard_eclipses: false,
            },
            RenderQuality::Advanced => QualityParams {
                star_count: 900,
                ring_segments: 192,
                old_trail_stride: 1,
                motion_tick_count: 12,
                ambient_light_hundredths: 6,
                surface_detail: SurfaceDetail::Detailed,
                hard_eclipses: true,
            },
        }
    }
}

} // verus!
