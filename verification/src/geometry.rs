//! Points, boxes, image sizes and colors shared by the editor and the app.

use vstd::prelude::*;

verus! {

/// A point in image coordinates.
#[derive(Debug, Clone, Copy, PartialEq, Eq, Structural)]
pub struct ToolPoint {
    pub x: i32,
    pub y: i32,
}

impl ToolPoint {
    pub fn new(x: i32, y: i32) -> (p: Self)
        ensures
            p.x == x,
            p.y == y,
    {
        ToolPoint { x, y }
    }
}

/// An axis-aligned box: top-left corner and size.
#[derive(Debug, Clone, Copy, PartialEq, Eq, Structural)]
pub struct ToolBounds {
    pub x: i32,
    pub y: i32,
    pub width: u32,
    pub height: u32,
}

impl ToolBounds {
    pub fn new(x: i32, y: i32, width: u32, height: u32) -> (b: Self)
        ensures
            b.x == x,
            b.y == y,
            b.width == width,
            b.height == height,
    {
        ToolBounds { x, y, width, height }
    }
}

/// The size of the image that is being edited.
#[derive(Debug, Clone, Copy, PartialEq, Eq, Structural)]
pub struct ImageBounds {
    pub width: i32,
    pub height: i32,
}

impl ImageBounds {
    pub fn new(width: i32, height: i32) -> (b: Self)
        ensures
            b.width == width,
            b.height == height,
    {
        ImageBounds { width, height }
    }
}

/// An opaque RGB color.
#[derive(Debug, Clone, Copy, PartialEq, Eq, Structural)]
pub struct Color {
    pub r: u8,
    pub g: u8,
    pub b: u8,
}

impl Color {
    pub fn new(r: u8, g: u8, b: u8) -> (c: Self)
        ensures
            c.r == r,
            c.g == g,
            c.b == b,
    {
        Color { r, g, b }
    }

    pub fn rgb(self) -> (t: (u8, u8, u8))
        ensures
            t == (self.r, self.g, self.b),
    {
        (self.r, self.g, self.b)
    }
}

} // verus!
