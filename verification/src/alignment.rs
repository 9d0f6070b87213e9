//! The shared alignment rule.
//!
//! Every text-bearing widget anchors its content through the same function,
//! so alignment behaves identically toolkit-wide: `Left`/`Top` anchor at the
//! bounds' origin edge, `Center` at the bounds' center on that axis, and
//! `Right`/`Bottom` at the far edge.

use vstd::prelude::*;
use crate::geometry::{Point, Rectangle, sat_add, sat_add_spec};

verus! {

/// Horizontal alignment of content inside its bounds.
#[derive(Clone, Copy, Debug, PartialEq, Eq, Structural)]
pub enum Horizontal {
    Left,
    Center,
    Right,
}

/// Vertical alignment of content inside its bounds.
#[derive(Clone, Copy, Debug, PartialEq, Eq, Structural)]
pub enum Vertical {
    Top,
    Center,
    Bottom,
}

/// The anchor point that `bounds` and the two alignments select.
pub open spec fn anchor_spec(bounds: Rectangle, horizontal: Horizontal, vertical: Vertical) -> Point {
    Point {
        x: match horizontal {
            Horizontal::Left => bounds.x,
            Horizontal::Center => bounds.center_x_spec(),
            Horizontal::Right => sat_add_spec(bounds.x, bounds.width),
        },
        y: match vertical {
            Vertical::Top => bounds.y,
            Vertical::Center => bounds.center_y_spec(),
            Vertical::Bottom => sat_add_spec(bounds.y, bounds.height),
        },
    }
}

/// Computes the point content is anchored at inside `bounds`.
pub fn anchor(bounds: &Rectangle, horizontal: Horizontal, vertical: Vertical) -> (p: Point)
    ensures
        p == anchor_spec(*bounds, horizontal, vertical),
{
    let x = match horizontal {
        Horizontal::Left => bounds.x,
        Horizontal::Center => bounds.center_x(),
        Horizontal::Right => sat_add(bounds.x, bounds.width),
    };
    let y = match vertical {
        Vertical::Top => bounds.y,
        Vertical::Center => bounds.center_y(),
        Vertical::Bottom => sat_add(bounds.y, bounds.height),
    };
    Point { x, y }
}

} // verus!
