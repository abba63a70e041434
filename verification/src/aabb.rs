//! Axis-aligned bounding boxes and their overlap test.

use vstd::prelude::*;

verus! {

/// An axis-aligned rectangle, given by its centre and its full width and
/// height.
#[derive(Clone, Copy, Debug, PartialEq, Eq, Structural)]
pub struct Aabb {
    pub x: i32,
    pub y: i32,
    pub width: i32,
    pub height: i32,
}

impl Aabb {
    /// Twice the coordinate of the left edge. Edges are kept doubled so that
    /// a box of odd width still has integer edges.
    pub open spec fn left2(self) -> int {
        2 * self.x - self.width
    }

    /// Twice the coordinate of the right edge.
    pub open spec fn right2(self) -> int {
        2 * self.x + self.width
    }

    /// Twice the coordinate of the lower edge.
    pub open spec fn bottom2(self) -> int {
        2 * self.y - self.height
    }

    /// Twice the coordinate of the upper edge.
    pub open spec fn top2(self) -> int {
        2 * self.y + self.height
    }

    /// The interiors of the two boxes meet: on each axis each box begins
    /// strictly before the other one ends. Boxes that only touch do not
    /// overlap.
    pub open spec fn overlaps(self, other: Aabb) -> bool {
        &&& self.left2() < other.right2()
        &&& self.right2() > other.left2()
        &&& self.bottom2() < other.top2()
        &&& self.top2() > other.bottom2()
    }

    /// Distance between the centres along the x axis.
    pub open spec fn gap_x(self, other: Aabb) -> int {
        if self.x >= other.x {
            self.x - other.x
        } else {
            other.x - self.x
        }
    }

    /// Distance between the centres along the y axis.
    pub open spec fn gap_y(self, other: Aabb) -> int {
        if self.y >= other.y {
            self.y - other.y
        } else {
            other.y - self.y
        }
    }

    /// Two boxes of positive size around the same centre always overlap.
    pub proof fn lemma_same_centre_overlaps(self, other: Aabb)
        requires
            self.x == other.x,
            self.y == other.y,
            self.width > 0,
            self.height > 0,
            other.width > 0,
            other.height > 0,
        ensures
            self.overlaps(other),
    {
    }

    /// Two boxes whose centres are further apart on one axis than the sum of
    /// their half extents on that axis never overlap.
    pub proof fn lemma_separated_never_overlaps(self, other: Aabb)
        requires
            2 * self.gap_x(other) > self.width + other.width || 2 * self.gap_y(other)
                > self.height + other.height,
        ensures
            !self.overlaps(other),
    {
    }

    /// Overlap is exactly closeness on both axes: the centres are nearer to
    /// each other than the sum of the half extents.
    pub proof fn lemma_overlap_is_closeness(self, other: Aabb)
        ensures
            self.overlaps(other) <==> (2 * self.gap_x(other) < self.width + other.width && 2
                * self.gap_y(other) < self.height + other.height),
    {
    }
}

/// Tells whether two boxes overlap.
pub fn collide(a: &Aabb, b: &Aabb) -> (hit: bool)
    ensures
        hit == a.overlaps(*b),
{
    let ax: i64 = 2 * (a.x as i64);
    let ay: i64 = 2 * (a.y as i64);
    let bx: i64 = 2 * (b.x as i64);
    let by: i64 = 2 * (b.y as i64);
    let aw: i64 = a.width as i64;
    let ah: i64 = a.height as i64;
    let bw: i64 = b.width as i64;
    let bh: i64 = b.height as i64;
    ax - aw < bx + bw && ax + aw > bx - bw && ay - ah < by + bh && ay + ah > by - bh
}

} // verus!
