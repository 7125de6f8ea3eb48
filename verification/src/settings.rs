//! Window and stroke style settings.

use vstd::prelude::*;

use crate::color::Color;
use crate::scalar::Scalar;

verus! {

/// The bit pattern of the host scalar one, the default stroke weight.
pub const SCALAR_ONE_BITS: u32 = 0x3F80_0000;

/// Size and title of the backing window.
#[derive(Debug)]
pub struct WindowSettings {
    pub width: u32,
    pub height: u32,
    pub title: String,
}

impl Default for WindowSettings {
    fn default() -> (s: WindowSettings)
        ensures
            s.width == 800,
            s.height == 600,
            s.title@ == "Processing"@,
    {
        WindowSettings { width: 800, height: 600, title: "Processing".to_owned() }
    }
}

/// The geometry appended at an open line or point endpoint.
#[derive(Debug, Clone, Copy, PartialEq, Eq, Structural)]
pub enum StrokeCap {
    /// Nothing: the stroked body ends flush at the endpoint.
    Butt,
    /// A circular disc centered on the endpoint.
    Round,
    /// The stroked body extended past the endpoint by half its weight.
    Square,
}

/// The geometry where two stroked edges meet. Accepted as style state, but
/// multi-edge shapes are stroked edge by edge with round caps, so every join
/// renders as `Round` today regardless of this setting.
#[derive(Debug, Clone, Copy, PartialEq, Eq, Structural)]
pub enum StrokeJoin {
    Miter,
    Round,
    Bevel,
}

/// The active style: which passes to emit and how to stroke.
/// A `None` fill or stroke means "do not emit that pass".
#[derive(Debug, Clone, Copy)]
pub struct StrokeSettings {
    pub fill: Option<Color>,
    pub stroke: Option<Color>,
    pub stroke_weight: Scalar,
    pub stroke_cap: StrokeCap,
    pub stroke_join: StrokeJoin,
}

/// The style a fresh canvas starts with: opaque white fill, opaque black
/// stroke of weight one, butt caps, miter joins.
pub open spec fn default_stroke_settings() -> StrokeSettings {
    StrokeSettings {
        fill: Some(Color { red: 255u8, green: 255u8, blue: 255u8, alpha: 255u8 }),
        stroke: Some(Color { red: 0u8, green: 0u8, blue: 0u8, alpha: 255u8 }),
        stroke_weight: Scalar { bits: SCALAR_ONE_BITS },
        stroke_cap: StrokeCap::Butt,
        stroke_join: StrokeJoin::Miter,
    }
}

impl Default for StrokeSettings {
    fn default() -> (s: StrokeSettings)
        ensures
            s == default_stroke_settings(),
    {
        StrokeSettings {
            fill: Some(Color { red: 255, green: 255, blue: 255, alpha: 255 }),
            stroke: Some(Color { red: 0, green: 0, blue: 0, alpha: 255 }),
            stroke_weight: Scalar { bits: SCALAR_ONE_BITS },
            stroke_cap: StrokeCap::Butt,
            stroke_join: StrokeJoin::Miter,
        }
    }
}

} // verus!
