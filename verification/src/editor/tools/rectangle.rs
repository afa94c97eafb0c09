//! Rectangle annotations.

use vstd::prelude::*;

use super::{clamp_u8_range, Color};

verus! {

/// Style of new rectangles.
#[derive(Debug, Clone, Copy, PartialEq, Eq, Structural)]
pub struct RectangleOptions {
    pub border_color: Color,
    pub thickness: u8,
    pub border_radius: u16,
    pub fill_enabled: bool,
}

impl Default for RectangleOptions {
    fn default() -> (o: Self)
        ensures
            o.border_color == (Color { r: 0, g: 0, b: 0 }),
            o.thickness == 3,
            o.border_radius == 0,
            !o.fill_enabled,
    {
        RectangleOptions {
            border_color: Color::new(0, 0, 0),
            thickness: 3,
            border_radius: 0,
            fill_enabled: false,
        }
    }
}

impl RectangleOptions {
    pub fn set_border_color(&mut self, color: Color)
        ensures
            *final(self) == (RectangleOptions { border_color: color, ..*old(self) }),
    {
        self.border_color = color;
    }

    /// Sets the border thickness; zero becomes one.
    pub fn set_thickness(&mut self, thickness: u8)
        ensures
            *final(self) == (RectangleOptions {
                thickness: if thickness == 0 {
                    1
                } else {
                    thickness
                },
                ..*old(self)
            }),
    {
        self.thickness = clamp_u8_range(thickness, 1, 255);
    }

    pub fn set_border_radius(&mut self, border_radius: u16)
        ensures
            *final(self) == (RectangleOptions { border_radius, ..*old(self) }),
    {
        self.border_radius = border_radius;
    }

    pub fn set_fill_enabled(&mut self, fill_enabled: bool)
        ensures
            *final(self) == (RectangleOptions { fill_enabled, ..*old(self) }),
    {
        self.fill_enabled = fill_enabled;
    }
}

/// A placed rectangle.
#[derive(Debug, Clone, Copy, PartialEq, Eq, Structural)]
pub struct RectangleElement {
    pub id: u64,
    pub x: i32,
    pub y: i32,
    pub width: u32,
    pub height: u32,
    pub options: RectangleOptions,
}

} // verus!
