//! Box constraints and the trees the layout pass produces.
//!
//! A parent hands each child a [`Limits`] value — a componentwise interval of
//! admissible sizes. The child narrows it by its own sizing policies and then
//! `resolve`s its desired size into the interval; this clamping is the only
//! place a size is forced to satisfy the constraint, which is what makes
//! layout infallible. The output is a [`Node`]: a resolved size plus an
//! ordered sequence of positioned child nodes.

use vstd::prelude::*;
use crate::geometry::{Point, Rectangle, Size};
use crate::length::Length;

verus! {

/// A value clamped into the interval `[lo, hi]`.
pub open spec fn clamp_spec(v: u32, lo: u32, hi: u32) -> u32 {
    if v < lo {
        lo
    } else if v > hi {
        hi
    } else {
        v
    }
}

/// Clamps `v` into `[lo, hi]`.
pub fn clamp(v: u32, lo: u32, hi: u32) -> (r: u32)
    requires
        lo <= hi,
    ensures
        r == clamp_spec(v, lo, hi),
{
    if v < lo {
        lo
    } else if v > hi {
        hi
    } else {
        v
    }
}

/// The componentwise larger of two values.
pub open spec fn upper_spec(a: u32, b: u32) -> u32 {
    if a < b {
        b
    } else {
        a
    }
}

/// An immutable box constraint: the sizes a parent admits for a child.
///
/// Well-formed limits satisfy `min <= max` componentwise; every constructor
/// and every narrowing operation keeps that invariant.
#[derive(Clone, Copy, Debug, PartialEq, Eq, Structural)]
pub struct Limits {
    pub min: Size,
    pub max: Size,
}

impl Limits {
    /// `min <= max` componentwise: the invariant of every `Limits` value.
    pub open spec fn wf(&self) -> bool {
        self.min.width <= self.max.width && self.min.height <= self.max.height
    }

    /// Whether `size` lies componentwise within `[min, max]`.
    pub open spec fn contains(&self, size: Size) -> bool {
        self.min.width <= size.width <= self.max.width
            && self.min.height <= size.height <= self.max.height
    }

    /// Whether `other` admits no size that `self` refuses.
    pub open spec fn narrows(&self, other: Limits) -> bool {
        other.min.width <= self.min.width && self.max.width <= other.max.width
            && other.min.height <= self.min.height && self.max.height <= other.max.height
    }

    /// Creates limits from the two corner sizes. Where a component of `max`
    /// falls below the matching component of `min`, it is raised to `min`,
    /// so the result is always well-formed.
    pub fn new(min: Size, max: Size) -> (r: Limits)
        ensures
            r.min == min,
            r.max.width == upper_spec(min.width, max.width),
            r.max.height == upper_spec(min.height, max.height),
            r.wf(),
    {
        let max_width = if max.width < min.width {
            min.width
        } else {
            max.width
        };
        let max_height = if max.height < min.height {
            min.height
        } else {
            max.height
        };
        Limits { min, max: Size { width: max_width, height: max_height } }
    }

    /// The limits that `width` narrows `self` to: a fixed request clamps
    /// into range and pins both ends there; fill and shrink policies leave
    /// the interval untouched.
    pub open spec fn width_spec(&self, width: Length) -> Limits {
        match width {
            Length::Units(units) => {
                let w = clamp_spec(units as u32, self.min.width, self.max.width);
                Limits {
                    min: Size { width: w, ..self.min },
                    max: Size { width: w, ..self.max },
                }
            },
            _ => *self,
        }
    }

    /// The limits that `height` narrows `self` to.
    pub open spec fn height_spec(&self, height: Length) -> Limits {
        match height {
            Length::Units(units) => {
                let h = clamp_spec(units as u32, self.min.height, self.max.height);
                Limits {
                    min: Size { height: h, ..self.min },
                    max: Size { height: h, ..self.max },
                }
            },
            _ => *self,
        }
    }

    /// Narrows the horizontal interval according to a sizing policy.
    pub fn width(&self, width: Length) -> (r: Limits)
        requires
            self.wf(),
        ensures
            r == self.width_spec(width),
            r.wf(),
            r.narrows(*self),
    {
        match width {
            Length::Units(units) => {
                let w = clamp(units as u32, self.min.width, self.max.width);
                Limits {
                    min: Size { width: w, height: self.min.height },
                    max: Size { width: w, height: self.max.height },
                }
            },
            _ => *self,
        }
    }

    /// Narrows the vertical interval according to a sizing policy.
    pub fn height(&self, height: Length) -> (r: Limits)
        requires
            self.wf(),
        ensures
            r == self.height_spec(height),
            r.wf(),
            r.narrows(*self),
    {
        match height {
            Length::Units(units) => {
                let h = clamp(units as u32, self.min.height, self.max.height);
                Limits {
                    min: Size { width: self.min.width, height: h },
                    max: Size { width: self.max.width, height: h },
                }
            },
            _ => *self,
        }
    }

    /// The largest admissible size; the bound handed to intrinsic
    /// measurement (for instance of text).
    pub fn max(&self) -> (r: Size)
        ensures
            r == self.max,
    {
        self.max
    }

    /// The smallest admissible size.
    pub fn min(&self) -> (r: Size)
        ensures
            r == self.min,
    {
        self.min
    }

    /// The limits that remain after reserving `reserved` on each axis:
    /// both corners drop by the reservation, saturating at zero.
    pub open spec fn shrink_spec(&self, reserved: Size) -> Limits {
        Limits {
            min: Size {
                width: crate::geometry::sat_sub_spec(self.min.width, reserved.width),
                height: crate::geometry::sat_sub_spec(self.min.height, reserved.height),
            },
            max: Size {
                width: crate::geometry::sat_sub_spec(self.max.width, reserved.width),
                height: crate::geometry::sat_sub_spec(self.max.height, reserved.height),
            },
        }
    }

    /// Reserves `reserved` on each axis, for instance for padding.
    pub fn shrink(&self, reserved: Size) -> (r: Limits)
        requires
            self.wf(),
        ensures
            r == self.shrink_spec(reserved),
            r.wf(),
    {
        Limits {
            min: Size {
                width: crate::geometry::sat_sub(self.min.width, reserved.width),
                height: crate::geometry::sat_sub(self.min.height, reserved.height),
            },
            max: Size {
                width: crate::geometry::sat_sub(self.max.width, reserved.width),
                height: crate::geometry::sat_sub(self.max.height, reserved.height),
            },
        }
    }

    /// The size that `resolve` forces `candidate` to: each component
    /// clamped into `[min, max]`.
    pub open spec fn resolve_spec(&self, candidate: Size) -> Size {
        Size {
            width: clamp_spec(candidate.width, self.min.width, self.max.width),
            height: clamp_spec(candidate.height, self.min.height, self.max.height),
        }
    }

    /// Clamps a desired size into the admissible interval. This is the only
    /// place a widget's wish is forced to satisfy its parent's constraint.
    pub fn resolve(&self, candidate: Size) -> (r: Size)
        requires
            self.wf(),
        ensures
            r == self.resolve_spec(candidate),
            self.contains(r),
    {
        Size {
            width: clamp(candidate.width, self.min.width, self.max.width),
            height: clamp(candidate.height, self.min.height, self.max.height),
        }
    }
}

/// Resolving is idempotent: a size that already went through `resolve`
/// passes through a second `resolve` under the same limits unchanged.
pub proof fn lemma_resolve_idempotent(limits: Limits, candidate: Size)
    requires
        limits.wf(),
    ensures
        limits.resolve_spec(limits.resolve_spec(candidate)) == limits.resolve_spec(candidate),
{
}

/// Resolving lands in range: for well-formed limits the resolved size lies
/// componentwise within `[min, max]`.
pub proof fn lemma_resolve_within(limits: Limits, candidate: Size)
    requires
        limits.wf(),
    ensures
        limits.contains(limits.resolve_spec(candidate)),
{
}

/// Narrowing by sizing policies only ever tightens the interval: whatever
/// a widget resolves under its narrowed limits still satisfies what its
/// parent handed down.
pub proof fn lemma_narrow_preserves_bounds(limits: Limits, width: Length, height: Length, size: Size)
    requires
        limits.wf(),
        limits.width_spec(width).height_spec(height).contains(size),
    ensures
        limits.contains(size),
{
}

/// A positioned child of a layout node: the child's node plus its offset
/// relative to the parent's origin.
pub struct Child {
    pub offset: Point,
    pub node: Node,
}

/// The result of laying out one widget: its resolved size and its
/// positioned children, mirroring the widget tree.
pub struct Node {
    pub size: Size,
    pub children: Vec<Child>,
}

impl Node {
    /// A leaf node of the given size.
    pub fn new(size: Size) -> (n: Node)
        ensures
            n.size == size,
            n.children@.len() == 0,
    {
        Node { size, children: Vec::new() }
    }

    /// A node with positioned children.
    pub fn with_children(size: Size, children: Vec<Child>) -> (n: Node)
        ensures
            n.size == size,
            n.children == children,
    {
        Node { size, children }
    }
}

/// A read-only cursor over a layout tree: one node plus the absolute
/// position accumulated from its ancestors.
#[derive(Clone, Copy)]
pub struct Layout<'a> {
    pub position: Point,
    pub node: &'a Node,
}

impl<'a> Layout<'a> {
    /// The bounds this cursor stands for: the accumulated position paired
    /// with the node's resolved size.
    pub open spec fn bounds_spec(&self) -> Rectangle {
        Rectangle {
            x: self.position.x,
            y: self.position.y,
            width: self.node.size.width,
            height: self.node.size.height,
        }
    }

    /// A cursor over `node` rooted at the coordinate origin.
    pub fn new(node: &'a Node) -> (r: Layout<'a>)
        ensures
            r.position == (Point { x: 0, y: 0 }),
            r.node == node,
    {
        Layout { position: Point { x: 0, y: 0 }, node }
    }

    /// A cursor over `node` whose ancestors accumulated `position`.
    pub fn at(position: Point, node: &'a Node) -> (r: Layout<'a>)
        ensures
            r.position == position,
            r.node == node,
    {
        Layout { position, node }
    }

    /// The absolute bounds of the node under the cursor.
    pub fn bounds(&self) -> (r: Rectangle)
        ensures
            r == self.bounds_spec(),
    {
        Rectangle {
            x: self.position.x,
            y: self.position.y,
            width: self.node.size.width,
            height: self.node.size.height,
        }
    }
}

} // verus!
