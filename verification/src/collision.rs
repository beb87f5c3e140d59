//! Bounding volumes and overlap tests, exact over millipixel integers.
//!
//! A circle intersects a circle when the squared distance between their
//! centers is at most the square of the sum of their radii; a circle
//! intersects a box when the point of the box closest to the circle's center
//! lies within the radius.

use vstd::prelude::*;
use crate::math::{spec_dist_sq, Vec2I, POS_LIMIT};

verus! {

/// Largest radius or half-extent a bounding volume admits, in millipixels.
pub const RADIUS_LIMIT: i64 = 1_000_000;

/// A circle: center and radius in millipixels.
#[derive(Clone, Copy, Debug, PartialEq, Eq, Structural)]
pub struct Circle {
    pub center: Vec2I,
    pub radius: i64,
}

/// An axis-aligned box: center and half-extents in millipixels.
#[derive(Clone, Copy, Debug, PartialEq, Eq, Structural)]
pub struct Aabb {
    pub center: Vec2I,
    pub half: Vec2I,
}

/// Either bounding volume.
#[derive(Clone, Copy, Debug, PartialEq, Eq, Structural)]
pub enum BoundingVolume {
    Aabb(Aabb),
    Circle(Circle),
}

/// The answer of an overlap test.
#[derive(Clone, Copy, Debug, PartialEq, Eq, Structural)]
pub struct Intersection(pub bool);

impl Circle {
    pub open spec fn wf(self) -> bool {
        &&& self.center.in_world()
        &&& 0 <= self.radius <= RADIUS_LIMIT
    }
}

impl Aabb {
    pub open spec fn wf(self) -> bool {
        &&& self.center.in_world()
        &&& 0 <= self.half.x <= RADIUS_LIMIT
        &&& 0 <= self.half.y <= RADIUS_LIMIT
    }
}

/// Two circles overlap (touching counts).
pub open spec fn spec_circles_intersect(a: Circle, b: Circle) -> bool {
    spec_dist_sq(a.center, b.center) <= (a.radius + b.radius) * (a.radius + b.radius)
}

/// The coordinate of `[lo, hi]` closest to `c`.
pub open spec fn spec_nearest_in(c: int, lo: int, hi: int) -> int {
    if c < lo {
        lo
    } else if c > hi {
        hi
    } else {
        c
    }
}

/// The point of the box closest to `p`.
pub open spec fn spec_nearest_point(b: Aabb, p: Vec2I) -> Vec2I {
    Vec2I {
        x: spec_nearest_in(p.x as int, b.center.x - b.half.x, b.center.x + b.half.x) as i64,
        y: spec_nearest_in(p.y as int, b.center.y - b.half.y, b.center.y + b.half.y) as i64,
    }
}

/// A circle overlaps a box (touching counts).
pub open spec fn spec_circle_aabb_intersect(c: Circle, b: Aabb) -> bool {
    spec_dist_sq(c.center, spec_nearest_point(b, c.center)) <= c.radius * c.radius
}

/// Two boxes overlap (touching counts).
pub open spec fn spec_aabbs_intersect(a: Aabb, b: Aabb) -> bool {
    &&& -(a.half.x + b.half.x) <= a.center.x - b.center.x <= a.half.x + b.half.x
    &&& -(a.half.y + b.half.y) <= a.center.y - b.center.y <= a.half.y + b.half.y
}

/// Overlap of any two bounding volumes.
pub open spec fn spec_volumes_intersect(a: BoundingVolume, b: BoundingVolume) -> bool {
    match (a, b) {
        (BoundingVolume::Circle(x), BoundingVolume::Circle(y)) => spec_circles_intersect(x, y),
        (BoundingVolume::Circle(x), BoundingVolume::Aabb(y)) => spec_circle_aabb_intersect(x, y),
        (BoundingVolume::Aabb(x), BoundingVolume::Circle(y)) => spec_circle_aabb_intersect(y, x),
        (BoundingVolume::Aabb(x), BoundingVolume::Aabb(y)) => spec_aabbs_intersect(x, y),
    }
}

/// Circle-versus-circle overlap test.
pub fn circles_intersect(a: &Circle, b: &Circle) -> (r: bool)
    requires
        a.wf(),
        b.wf(),
    ensures
        r == spec_circles_intersect(*a, *b),
{
    let d: u64 = crate::math::dist_sq(a.center, b.center);
    let rsum: i64 = a.radius + b.radius;
    assert(rsum * rsum <= 4 * RADIUS_LIMIT * RADIUS_LIMIT && rsum * rsum >= 0)
        by (nonlinear_arith)
        requires
            0 <= rsum <= 2 * RADIUS_LIMIT,
    ;
    let rr: i64 = rsum * rsum;
    d <= (rr as u64)
}

/// Circle-versus-box overlap test.
pub fn circle_aabb_intersect(c: &Circle, b: &Aabb) -> (r: bool)
    requires
        c.wf(),
        b.wf(),
    ensures
        r == spec_circle_aabb_intersect(*c, *b),
{
    let lo_x: i64 = b.center.x - b.half.x;
    let hi_x: i64 = b.center.x + b.half.x;
    let lo_y: i64 = b.center.y - b.half.y;
    let hi_y: i64 = b.center.y + b.half.y;
    let nx: i64 = if c.center.x < lo_x {
        lo_x
    } else if c.center.x > hi_x {
        hi_x
    } else {
        c.center.x
    };
    let ny: i64 = if c.center.y < lo_y {
        lo_y
    } else if c.center.y > hi_y {
        hi_y
    } else {
        c.center.y
    };
    let dx: i64 = c.center.x - nx;
    let dy: i64 = c.center.y - ny;
    assert(0 <= dx * dx <= 4 * POS_LIMIT * POS_LIMIT && 0 <= dy * dy <= 4 * POS_LIMIT
        * POS_LIMIT && 0 <= c.radius * c.radius <= RADIUS_LIMIT * RADIUS_LIMIT)
        by (nonlinear_arith)
        requires
            -2 * POS_LIMIT <= dx <= 2 * POS_LIMIT,
            -2 * POS_LIMIT <= dy <= 2 * POS_LIMIT,
            0 <= c.radius <= RADIUS_LIMIT,
    ;
    let dist: i64 = dx * dx + dy * dy;
    let rr: i64 = c.radius * c.radius;
    dist <= rr
}

/// Box-versus-box overlap test.
pub fn aabbs_intersect(a: &Aabb, b: &Aabb) -> (r: bool)
    requires
        a.wf(),
        b.wf(),
    ensures
        r == spec_aabbs_intersect(*a, *b),
{
    let dx: i64 = a.center.x - b.center.x;
    let dy: i64 = a.center.y - b.center.y;
    let hx: i64 = a.half.x + b.half.x;
    let hy: i64 = a.half.y + b.half.y;
    -hx <= dx && dx <= hx && -hy <= dy && dy <= hy
}

impl BoundingVolume {
    pub open spec fn wf(self) -> bool {
        match self {
            BoundingVolume::Circle(c) => c.wf(),
            BoundingVolume::Aabb(b) => b.wf(),
        }
    }

    /// Overlap test between any two bounding volumes.
    pub fn intersects(&self, other: &BoundingVolume) -> (r: Intersection)
        requires
            self.wf(),
            other.wf(),
        ensures
            r.0 == spec_volumes_intersect(*self, *other),
    {
        let r: bool = match (self, other) {
            (BoundingVolume::Circle(x), BoundingVolume::Circle(y)) => circles_intersect(x, y),
            (BoundingVolume::Circle(x), BoundingVolume::Aabb(y)) => circle_aabb_intersect(x, y),
            (BoundingVolume::Aabb(x), BoundingVolume::Circle(y)) => circle_aabb_intersect(y, x),
            (BoundingVolume::Aabb(x), BoundingVolume::Aabb(y)) => aabbs_intersect(x, y),
        };
        Intersection(r)
    }
}

} // verus!
