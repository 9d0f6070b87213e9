//! Geometry primitives: points, sizes and rectangles.
//!
//! Coordinates are unsigned integer device-independent units. Arithmetic that
//! could run past the coordinate range saturates instead of overflowing, so
//! every geometric operation is total.

use vstd::prelude::*;

verus! {

/// A point in two-dimensional space.
#[derive(Clone, Copy, Debug, PartialEq, Eq, Structural)]
pub struct Point {
    pub x: u32,
    pub y: u32,
}

/// An amount of space in two dimensions.
#[derive(Clone, Copy, Debug, PartialEq, Eq, Structural)]
pub struct Size {
    pub width: u32,
    pub height: u32,
}

/// An axis-aligned rectangle: an origin point plus a size.
#[derive(Clone, Copy, Debug, PartialEq, Eq, Structural)]
pub struct Rectangle {
    pub x: u32,
    pub y: u32,
    pub width: u32,
    pub height: u32,
}

/// Addition clamped to the coordinate range.
pub open spec fn sat_add_spec(a: u32, b: u32) -> u32 {
    if a + b <= u32::MAX {
        (a + b) as u32
    } else {
        u32::MAX
    }
}

/// Saturating addition on coordinates.
pub fn sat_add(a: u32, b: u32) -> (r: u32)
    ensures
        r == sat_add_spec(a, b),
{
    if a <= u32::MAX - b {
        a + b
    } else {
        u32::MAX
    }
}

/// Subtraction clamped at zero.
pub open spec fn sat_sub_spec(a: u32, b: u32) -> u32 {
    if a >= b {
        (a - b) as u32
    } else {
        0
    }
}

/// Saturating subtraction on coordinates.
pub fn sat_sub(a: u32, b: u32) -> (r: u32)
    ensures
        r == sat_sub_spec(a, b),
{
    if a >= b {
        a - b
    } else {
        0
    }
}

impl Point {
    /// The point at the coordinate origin.
    pub fn origin() -> (p: Point)
        ensures
            p.x == 0,
            p.y == 0,
    {
        Point { x: 0, y: 0 }
    }

    /// A point from its coordinates.
    pub fn new(x: u32, y: u32) -> (p: Point)
        ensures
            p.x == x,
            p.y == y,
    {
        Point { x, y }
    }
}

impl Size {
    /// A size from its components.
    pub fn new(width: u32, height: u32) -> (s: Size)
        ensures
            s.width == width,
            s.height == height,
    {
        Size { width, height }
    }

    /// The size with no extent on either axis.
    pub fn zero() -> (s: Size)
        ensures
            s.width == 0,
            s.height == 0,
    {
        Size { width: 0, height: 0 }
    }
}

impl Rectangle {
    /// Whether `point` lies inside the rectangle: within its origin edges
    /// inclusive and its far edges exclusive.
    pub open spec fn contains_spec(&self, point: Point) -> bool {
        self.x <= point.x && point.x < self.x + self.width && self.y <= point.y && point.y
            < self.y + self.height
    }

    /// Whether `point` lies inside the rectangle.
    pub fn contains(&self, point: Point) -> (r: bool)
        ensures
            r == self.contains_spec(point),
    {
        point.x >= self.x && point.x - self.x < self.width && point.y >= self.y && point.y - self.y
            < self.height
    }

    /// The horizontal coordinate of the rectangle's center.
    pub open spec fn center_x_spec(&self) -> u32 {
        sat_add_spec(self.x, self.width / 2)
    }

    /// The vertical coordinate of the rectangle's center.
    pub open spec fn center_y_spec(&self) -> u32 {
        sat_add_spec(self.y, self.height / 2)
    }

    /// The horizontal center of the rectangle.
    pub fn center_x(&self) -> (r: u32)
        ensures
            r == self.center_x_spec(),
    {
        sat_add(self.x, self.width / 2)
    }

    /// The vertical center of the rectangle.
    pub fn center_y(&self) -> (r: u32)
        ensures
            r == self.center_y_spec(),
    {
        sat_add(self.y, self.height / 2)
    }
}

} // verus!
