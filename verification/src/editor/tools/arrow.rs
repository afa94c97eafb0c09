//! Arrow annotations.

use vstd::prelude::*;

use super::{clamp_u8_range, Color, ToolPoint};

verus! {

/// Style of new arrows.
#[derive(Debug, Clone, Copy, PartialEq, Eq, Structural)]
pub struct ArrowOptions {
    pub color: Color,
    pub thickness: u8,
    pub head_size: u8,
}

impl Default for ArrowOptions {
    fn default() -> (o: Self)
        ensures
            o.color == (Color { r: 0, g: 0, b: 0 }),
            o.thickness == 3,
            o.head_size == 8,
    {
        ArrowOptions { color: Color::new(0, 0, 0), thickness: 3, head_size: 8 }
    }
}

impl ArrowOptions {
    pub fn set_color(&mut self, color: Color)
        ensures
            *final(self) == (ArrowOptions { color, ..*old(self) }),
    {
        self.color = color;
    }

    /// Sets the stroke thickness; zero becomes one.
    pub fn set_thickness(&mut self, thickness: u8)
        ensures
            final(self).thickness == (if thickness == 0 { 1 } else { thickness }),
            final(self).color == old(self).color,
            final(self).head_size == old(self).head_size,
    {
        self.thickness = clamp_u8_range(thickness, 1, 255);
    }

    /// Sets the head size; zero becomes one.
    pub fn set_head_size(&mut self, head_size: u8)
        ensures
            final(self).head_size == (if head_size == 0 { 1 } else { head_size }),
            final(self).color == old(self).color,
            final(self).thickness == old(self).thickness,
    {
        self.head_size = clamp_u8_range(head_size, 1, 255);
    }
}

/// A placed arrow.
#[derive(Debug, Clone, Copy, PartialEq, Eq, Structural)]
pub struct ArrowElement {
    pub id: u64,
    pub start: ToolPoint,
    pub end: ToolPoint,
    pub options: ArrowOptions,
}

impl ArrowElement {
    pub fn new(id: u64, start: ToolPoint, end: ToolPoint, options: ArrowOptions) -> (a: Self)
        ensures
            a == (ArrowElement { id, start, end, options }),
    {
        ArrowElement { id, start, end, options }
    }
}

} // verus!
