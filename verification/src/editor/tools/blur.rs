//! Blurred regions.

use vstd::prelude::*;

use super::ToolPoint;

verus! {

/// The rectangle a blur covers.
#[derive(Debug, Clone, Copy, PartialEq, Eq, Structural)]
pub struct BlurRegion {
    pub x: i32,
    pub y: i32,
    pub width: u32,
    pub height: u32,
}

impl BlurRegion {
    pub fn new(x: i32, y: i32, width: u32, height: u32) -> (r: Self)
        ensures
            r == (BlurRegion { x, y, width, height }),
    {
        BlurRegion { x, y, width, height }
    }
}

/// Options of the blur tool.
#[derive(Debug, Clone, Copy, PartialEq, Eq, Structural)]
pub struct BlurOptions {
    pub intensity: u8,
}

impl Default for BlurOptions {
    fn default() -> (o: Self)
        ensures
            o.intensity == 50,
    {
        BlurOptions { intensity: 50 }
    }
}

impl BlurOptions {
    /// Sets the intensity in percent, clamped into `[1, 100]`.
    pub fn set_intensity(&mut self, intensity: u8)
        ensures
            final(self).intensity == (if intensity < 1 {
                1
            } else if intensity > 100 {
                100
            } else {
                intensity
            }),
    {
        self.intensity = super::clamp_u8_range(intensity, 1, 100);
    }
}

/// A placed blur; the anchor is the region's top-left corner.
#[derive(Debug, Clone, Copy, PartialEq, Eq, Structural)]
pub struct BlurElement {
    pub id: u64,
    pub region: BlurRegion,
    pub anchor: ToolPoint,
    pub options: BlurOptions,
}

} // verus!
