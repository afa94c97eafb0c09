//! Free-hand pen strokes.

use vstd::prelude::*;

use super::{clamp_u8_range, Color};

verus! {

/// One sampled point of a stroke.
#[derive(Debug, Clone, Copy, PartialEq, Eq, Structural)]
pub struct PenPoint {
    pub x: i32,
    pub y: i32,
}

impl PenPoint {
    pub fn new(x: i32, y: i32) -> (p: Self)
        ensures
            p.x == x,
            p.y == y,
    {
        PenPoint { x, y }
    }
}

/// Style of new pen strokes.
#[derive(Debug, Clone, Copy, PartialEq, Eq, Structural)]
pub struct PenOptions {
    pub color: Color,
    pub opacity: u8,
    pub thickness: u8,
}

impl Default for PenOptions {
    fn default() -> (o: Self)
        ensures
            o.color == (Color { r: 0, g: 0, b: 0 }),
            o.opacity == 100,
            o.thickness == 3,
    {
        PenOptions { color: Color::new(0, 0, 0), opacity: 100, thickness: 3 }
    }
}

impl PenOptions {
    pub fn set_color(&mut self, color: Color)
        ensures
            *final(self) == (PenOptions { color, ..*old(self) }),
    {
        self.color = color;
    }

    /// Sets the opacity in percent, clamped into `[1, 100]`.
    pub fn set_opacity(&mut self, opacity: u8)
        ensures
            final(self).opacity == (if opacity < 1 {
                1
            } else if opacity > 100 {
                100
            } else {
                opacity
            }),
            final(self).color == old(self).color,
            final(self).thickness == old(self).thickness,
    {
        self.opacity = clamp_u8_range(opacity, 1, 100);
    }

    /// Sets the stroke thickness; zero becomes one.
    pub fn set_thickness(&mut self, thickness: u8)
        ensures
            final(self).thickness == (if thickness == 0 { 1 } else { thickness }),
            final(self).color == old(self).color,
            final(self).opacity == old(self).opacity,
    {
        self.thickness = clamp_u8_range(thickness, 1, 255);
    }
}

/// A free-hand stroke: the points in drawing order.
#[derive(Debug, Clone, PartialEq, Eq)]
pub struct PenStroke {
    pub id: u64,
    pub points: Vec<PenPoint>,
    pub options: PenOptions,
    pub finalized: bool,
}

impl PenStroke {
    /// A stroke that holds only its start point and is still being drawn.
    pub fn new(id: u64, start: PenPoint, options: PenOptions) -> (s: Self)
        ensures
            s.id == id,
            s.points@ == seq![start],
            s.options == options,
            !s.finalized,
    {
        PenStroke { id, points: vec![start], options, finalized: false }
    }

    pub fn append_point(&mut self, point: PenPoint)
        ensures
            final(self).points@ == old(self).points@.push(point),
            final(self).id == old(self).id,
            final(self).options == old(self).options,
            final(self).finalized == old(self).finalized,
    {
        self.points.push(point);
    }

    pub fn finalize(&mut self)
        ensures
            final(self).finalized,
            final(self).points@ == old(self).points@,
            final(self).id == old(self).id,
            final(self).options == old(self).options,
    {
        self.finalized = true;
    }
}

} // verus!
