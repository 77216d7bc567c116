//! Points, rectangles, colors and text alignment, in whole pixels.
use vstd::prelude::*;

verus! {

/// A position on the screen.
#[derive(Debug, Clone, Copy, PartialEq, Eq, Structural)]
pub struct Point {
    pub x: i32,
    pub y: i32,
}

impl Point {
    pub fn new(x: i32, y: i32) -> (r: Point)
        ensures
            r.x == x,
            r.y == y,
    {
        Point { x, y }
    }
}

/// An axis-aligned rectangle: its top-left corner and its size.
#[derive(Debug, Clone, Copy, PartialEq, Eq, Structural)]
pub struct Rectangle {
    pub x: i32,
    pub y: i32,
    pub width: u32,
    pub height: u32,
}

/// Whether `p` lies in `r`, edges included.
pub open spec fn rect_contains(r: Rectangle, p: Point) -> bool {
    &&& r.x <= p.x <= r.x + r.width
    &&& r.y <= p.y <= r.y + r.height
}

impl Rectangle {
    pub fn new(x: i32, y: i32, width: u32, height: u32) -> (r: Rectangle)
        ensures
            r == (Rectangle { x, y, width, height }),
    {
        Rectangle { x, y, width, height }
    }

    /// Returns whether the point lies inside the rectangle, edges included.
    pub fn contains(&self, p: Point) -> (r: bool)
        ensures
            r == rect_contains(*self, p),
    {
        let left = self.x as i64;
        let top = self.y as i64;
        let px = p.x as i64;
        let py = p.y as i64;
        left <= px && px <= left + self.width as i64 && top <= py && py <= top
            + self.height as i64
    }
}

/// A color with red, green, blue and alpha channels.
#[derive(Debug, Clone, Copy, PartialEq, Eq, Structural)]
pub struct Color {
    pub r: u8,
    pub g: u8,
    pub b: u8,
    pub a: u8,
}

impl Color {
    /// Opaque white.
    pub fn white() -> (c: Color)
        ensures
            c == (Color { r: 255, g: 255, b: 255, a: 255 }),
    {
        Color { r: 255, g: 255, b: 255, a: 255 }
    }

    /// Opaque black.
    pub fn black() -> (c: Color)
        ensures
            c == (Color { r: 0, g: 0, b: 0, a: 255 }),
    {
        Color { r: 0, g: 0, b: 0, a: 255 }
    }
}

/// Where text stands horizontally within its bounds.
#[derive(Debug, Clone, Copy, PartialEq, Eq, Structural)]
pub enum HorizontalAlignment {
    Left,
    Center,
    Right,
}

/// Where text stands vertically within its bounds.
#[derive(Debug, Clone, Copy, PartialEq, Eq, Structural)]
pub enum VerticalAlignment {
    Top,
    Center,
    Bottom,
}

} // verus!
