//! Points, boxes and circles on the grid, and the two queries that the
//! collision rules are built on: the point of a box nearest to a given point,
//! and whether a circle and a box meet.
//!
//! Every executable type has a view into whole-number mathematics (`Vector`,
//! `Rect`, `Disc`). Contracts and laws are stated over the views, so they are
//! free of machine limits.

use vstd::prelude::*;

verus! {

/// The distance of `a` from zero.
pub open spec fn magnitude(a: int) -> int {
    if a < 0 {
        -a
    } else {
        a
    }
}

/// `a` moved into the span from `lo` to `hi`: `lo` when `a` lies below the
/// span, `hi` when it lies above, `a` itself otherwise.
pub open spec fn clamp(a: int, lo: int, hi: int) -> int {
    if a < lo {
        lo
    } else if a > hi {
        hi
    } else {
        a
    }
}

/// A vector of the plane with whole-number coordinates. It is the view of
/// positions, velocities and offsets alike.
pub struct Vector {
    pub x: int,
    pub y: int,
}

impl Vector {
    /// The sum of two vectors.
    pub open spec fn plus(self, other: Vector) -> Vector {
        Vector { x: self.x + other.x, y: self.y + other.y }
    }

    /// The vector that leads from `other` to `self`.
    pub open spec fn minus(self, other: Vector) -> Vector {
        Vector { x: self.x - other.x, y: self.y - other.y }
    }

    /// The vector stretched by the factor `k`.
    pub open spec fn scaled(self, k: int) -> Vector {
        Vector { x: self.x * k, y: self.y * k }
    }

    /// The square of the vector's length.
    pub open spec fn length_squared(self) -> int {
        self.x * self.x + self.y * self.y
    }

    /// The vector mirrored in the vertical axis: its `x` changes sign.
    pub open spec fn flipped_x(self) -> Vector {
        Vector { x: -self.x, y: self.y }
    }

    /// The vector mirrored in the horizontal axis: its `y` changes sign.
    pub open spec fn flipped_y(self) -> Vector {
        Vector { x: self.x, y: -self.y }
    }

    /// Whether both coordinates can be held in an `i64`.
    pub open spec fn fits_i64(self) -> bool {
        &&& i64::MIN <= self.x <= i64::MAX
        &&& i64::MIN <= self.y <= i64::MAX
    }
}

/// An axis-aligned rectangle, given by its centre and its half extents. It is
/// the view of `Aabb` and of the world's bounds.
pub struct Rect {
    pub center: Vector,
    pub half: Vector,
}

impl Rect {
    /// A rectangle is well formed when neither half extent is negative.
    pub open spec fn wf(self) -> bool {
        self.half.x >= 0 && self.half.y >= 0
    }

    /// The corner with the least coordinates.
    pub open spec fn min(self) -> Vector {
        self.center.minus(self.half)
    }

    /// The corner with the greatest coordinates.
    pub open spec fn max(self) -> Vector {
        self.center.plus(self.half)
    }

    /// Whether `p` lies in the rectangle, the edges counted in.
    pub open spec fn contains(self, p: Vector) -> bool {
        &&& self.min().x <= p.x <= self.max().x
        &&& self.min().y <= p.y <= self.max().y
    }

    /// The point of the rectangle nearest to `p`: `p` with each coordinate
    /// moved into the rectangle's span on that axis.
    pub open spec fn closest_point(self, p: Vector) -> Vector {
        Vector {
            x: clamp(p.x, self.min().x, self.max().x),
            y: clamp(p.y, self.min().y, self.max().y),
        }
    }

    /// The vector that leads from the rectangle's nearest point to `p`. It is
    /// zero exactly for the points of the rectangle.
    pub open spec fn offset_to(self, p: Vector) -> Vector {
        p.minus(self.closest_point(p))
    }
}

/// A closed disc, given by its centre and its radius. It is the view of
/// `Circle`.
pub struct Disc {
    pub center: Vector,
    pub radius: int,
}

impl Disc {
    /// Whether `p` lies in the disc, the rim counted in.
    pub open spec fn contains(self, p: Vector) -> bool {
        p.minus(self.center).length_squared() <= self.radius * self.radius
    }

    /// The intersection test: the point of `rect` nearest to the centre lies
    /// in the disc.
    pub open spec fn intersects(self, rect: Rect) -> bool {
        self.contains(rect.closest_point(self.center))
    }

    /// Whether the disc and `rect` have a point in common.
    pub open spec fn overlaps(self, rect: Rect) -> bool {
        exists|p: Vector| #[trigger] rect.contains(p) && self.contains(p)
    }
}

/// A position on the grid.
#[derive(Clone, Copy, Debug, PartialEq, Eq, Structural)]
pub struct Point {
    pub x: i64,
    pub y: i64,
}

impl View for Point {
    type V = Vector;

    open spec fn view(&self) -> Vector {
        Vector { x: self.x as int, y: self.y as int }
    }
}

impl Point {
    /// The point with the given coordinates.
    pub fn new(x: i64, y: i64) -> (p: Point)
        ensures
            p == (Point { x, y }),
    {
        Point { x, y }
    }
}

/// An axis-aligned bounding box: a centre and the half extents on both axes.
#[derive(Clone, Copy, Debug, PartialEq, Eq, Structural)]
pub struct Aabb {
    pub center: Point,
    pub half_width: u32,
    pub half_height: u32,
}

impl View for Aabb {
    type V = Rect;

    open spec fn view(&self) -> Rect {
        Rect {
            center: self.center@,
            half: Vector { x: self.half_width as int, y: self.half_height as int },
        }
    }
}

/// A bounding circle: a centre and a radius.
#[derive(Clone, Copy, Debug, PartialEq, Eq, Structural)]
pub struct Circle {
    pub center: Point,
    pub radius: u32,
}

impl View for Circle {
    type V = Disc;

    open spec fn view(&self) -> Disc {
        Disc { center: self.center@, radius: self.radius as int }
    }
}

/// On one axis, how far `p` lies outside the span of half width `half` around
/// `center`: negative below the span, positive above it, zero inside.
pub(crate) fn axis_offset(p: i64, center: i64, half: u32) -> (d: i128)
    ensures
        d == p - clamp(p as int, center - half, center + half),
{
    let lo: i128 = center as i128 - half as i128;
    let hi: i128 = center as i128 + half as i128;
    let p: i128 = p as i128;
    if p < lo {
        p - lo
    } else if p > hi {
        p - hi
    } else {
        0
    }
}

/// Whether the vector `(dx, dy)` is at most `radius` long.
pub(crate) fn within_radius(dx: i128, dy: i128, radius: u32) -> (r: bool)
    ensures
        r == (dx * dx + dy * dy <= radius * radius),
{
    let reach: i128 = radius as i128;
    if dx > reach || dx < -reach {
        proof {
            lemma_square_strict(reach as int, dx as int);
            lemma_square_monotone(0, dy as int);
        }
        return false;
    }
    if dy > reach || dy < -reach {
        proof {
            lemma_square_strict(reach as int, dy as int);
            lemma_square_monotone(0, dx as int);
        }
        return false;
    }
    proof {
        lemma_square_monotone(dx as int, reach as int);
        lemma_square_monotone(dy as int, reach as int);
        lemma_square_monotone(reach as int, 0x1_0000_0000);
    }
    dx * dx + dy * dy <= reach * reach
}

impl Aabb {
    /// The box with the given centre and half extents.
    pub fn new(center: Point, half_width: u32, half_height: u32) -> (b: Aabb)
        ensures
            b == (Aabb { center, half_width, half_height }),
    {
        Aabb { center, half_width, half_height }
    }

    /// The point of the box nearest to `p`.
    pub fn closest_point(&self, p: Point) -> (r: Point)
        ensures
            r@ == self@.closest_point(p@),
    {
        let dx: i128 = axis_offset(p.x, self.center.x, self.half_width);
        let dy: i128 = axis_offset(p.y, self.center.y, self.half_height);
        Point { x: (p.x as i128 - dx) as i64, y: (p.y as i128 - dy) as i64 }
    }
}

impl Circle {
    /// The circle with the given centre and radius.
    pub fn new(center: Point, radius: u32) -> (c: Circle)
        ensures
            c == (Circle { center, radius }),
    {
        Circle { center, radius }
    }

    /// Whether the circle and the box meet, that is, have a point in common;
    /// touching counts.
    pub fn intersects(&self, aabb: &Aabb) -> (r: bool)
        ensures
            r == self@.intersects(aabb@),
            r == self@.overlaps(aabb@),
    {
        proof {
            lemma_intersects_iff_overlaps(self@, aabb@);
        }
        let dx: i128 = axis_offset(self.center.x, aabb.center.x, aabb.half_width);
        let dy: i128 = axis_offset(self.center.y, aabb.center.y, aabb.half_height);
        within_radius(-dx, -dy, self.radius)
    }
}

/// Of two numbers, the one nearer to zero has the smaller square.
pub proof fn lemma_square_monotone(a: int, b: int)
    by (nonlinear_arith)
    requires
        magnitude(a) <= magnitude(b),
    ensures
        0 <= a * a <= b * b,
{
}

/// Of two numbers, the one strictly nearer to zero has the strictly smaller
/// square.
pub proof fn lemma_square_strict(a: int, b: int)
    by (nonlinear_arith)
    requires
        magnitude(a) < magnitude(b),
    ensures
        0 <= a * a < b * b,
{
}

/// No point of a rectangle is nearer to `p` than `closest_point(p)`, which is
/// itself a point of the rectangle as soon as the rectangle has any.
pub proof fn lemma_closest_point_is_nearest(rect: Rect, p: Vector, q: Vector)
    requires
        rect.contains(q),
    ensures
        rect.contains(rect.closest_point(p)),
        rect.closest_point(p).minus(p).length_squared() <= q.minus(p).length_squared(),
{
    let nearest = rect.closest_point(p);
    lemma_square_monotone(nearest.x - p.x, q.x - p.x);
    lemma_square_monotone(nearest.y - p.y, q.y - p.y);
}

/// The intersection test decides overlap: a disc and a well-formed rectangle
/// have a point in common exactly when the rectangle's point nearest to the
/// disc's centre lies in the disc.
pub proof fn lemma_intersects_iff_overlaps(disc: Disc, rect: Rect)
    requires
        rect.wf(),
    ensures
        disc.intersects(rect) <==> disc.overlaps(rect),
{
    let nearest = rect.closest_point(disc.center);
    if disc.intersects(rect) {
        assert(rect.contains(nearest) && disc.contains(nearest));
    }
    if disc.overlaps(rect) {
        let q = choose|q: Vector| #[trigger] rect.contains(q) && disc.contains(q);
        lemma_closest_point_is_nearest(rect, disc.center, q);
    }
}

} // verus!
