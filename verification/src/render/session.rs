//! Presentation options shared by the interactive, frame and recording paths.

use vstd::prelude::*;

use crate::render::scale::ScaleMode;
use crate::render::scene::{Fill, Representation};

verus! {

/// Presentation choices for a render session.
#[derive(Clone, Copy, Debug, PartialEq, Eq, Structural)]
pub struct RenderOptions {
    pub scale: ScaleMode,
    pub representation: Representation,
    pub fill: Fill,
    /// Whether labels and other chrome are drawn.
    pub chrome: bool,
}

/// The options a scenario's render settings name; an unknown name falls back
/// to compressed scale, the heliocentric frame and block fill.
pub open spec fn spec_options_from_settings(
    scale: Seq<char>,
    representation: Seq<char>,
    fill: Seq<char>,
    chrome: bool,
) -> RenderOptions {
    RenderOptions {
        scale: match ScaleMode::spec_from_name(scale) {
            Some(m) => m,
            None => ScaleMode::Compressed,
        },
        representation: match Representation::spec_from_name(representation) {
            Some(r) => r,
            None => Representation::Heliocentric,
        },
        fill: match Fill::spec_from_name(fill) {
            Some(f) => f,
            None => Fill::Blocks,
        },
        chrome,
    }
}

impl RenderOptions {
    /// The options named by a scenario's render settings.
    pub fn from_settings(scale: &str, representation: &str, fill: &str, chrome: bool) -> (o: RenderOptions)
        ensures
            o == spec_options_from_settings(scale@, representation@, fill@, chrome),
    {
        RenderOptions {
            scale: match ScaleMode::from_name(scale) {
                Some(m) => m,
                None => ScaleMode::Compressed,
            },
            representation: match Representation::from_name(representation) {
                Some(r) => r,
                None => Representation::Heliocentric,
            },
            fill: match Fill::from_name(fill) {
                Some(f) => f,
                None => Fill::Blocks,
            },
            chrome,
        }
    }
}

} // verus!
