//! How a body moves in one tick: its position advances by its velocity times
//! the elapsed time, its velocity is mirrored on each axis on which the new
//! position left the world's bounds, and the position is brought back into
//! the bounds.

use crate::geometry::{clamp, Point, Rect, Vector};
use vstd::prelude::*;

verus! {

/// Where a body that starts at `position` and moves with `velocity` is after
/// the time `dt`.
pub open spec fn integrate_spec(position: Vector, velocity: Vector, dt: int) -> Vector {
    position.plus(velocity.scaled(dt))
}

/// The velocity after the bounds have been applied to a body at `position`:
/// a component changes sign exactly when `position` lies outside the bounds
/// on that axis. The two axes do not influence each other.
pub open spec fn reflect_spec(bounds: Rect, position: Vector, velocity: Vector) -> Vector {
    Vector {
        x: if position.x > bounds.max().x || position.x < bounds.min().x {
            -velocity.x
        } else {
            velocity.x
        },
        y: if position.y > bounds.max().y || position.y < bounds.min().y {
            -velocity.y
        } else {
            velocity.y
        },
    }
}

/// A velocity, in grid steps per unit of time.
#[derive(Clone, Copy, Debug, PartialEq, Eq, Structural)]
pub struct Velocity {
    pub x: i64,
    pub y: i64,
}

impl View for Velocity {
    type V = Vector;

    open spec fn view(&self) -> Vector {
        Vector { x: self.x as int, y: self.y as int }
    }
}

impl Velocity {
    /// A velocity is well formed when each component can change sign, that
    /// is, when neither is `i64::MIN`.
    pub open spec fn wf(&self) -> bool {
        self.x > i64::MIN && self.y > i64::MIN
    }

    /// The velocity with the given components, or `None` when one of them is
    /// `i64::MIN` and so could not be mirrored.
    pub fn new(x: i64, y: i64) -> (r: Option<Velocity>)
        ensures
            match r {
                Some(v) => v == (Velocity { x, y }) && v.wf(),
                None => x == i64::MIN || y == i64::MIN,
            },
    {
        if x == i64::MIN || y == i64::MIN {
            None
        } else {
            Some(Velocity { x, y })
        }
    }

    /// The velocity after a bounce off a vertical edge: `x` changes sign.
    pub fn flip_x(self) -> (r: Velocity)
        requires
            self.wf(),
        ensures
            r@ == self@.flipped_x(),
            r.wf(),
            r@.length_squared() == self@.length_squared(),
    {
        proof {
            lemma_flip_conserves_speed(self@);
        }
        Velocity { x: -self.x, y: self.y }
    }

    /// The velocity after a bounce off a horizontal edge: `y` changes sign.
    pub fn flip_y(self) -> (r: Velocity)
        requires
            self.wf(),
        ensures
            r@ == self@.flipped_y(),
            r.wf(),
            r@.length_squared() == self@.length_squared(),
    {
        proof {
            lemma_flip_conserves_speed(self@);
        }
        Velocity { x: self.x, y: -self.y }
    }
}

/// The bounds of the world: the rectangle around the origin that reaches
/// `half_width` to either side and `half_height` up and down.
#[derive(Clone, Copy, Debug, PartialEq, Eq, Structural)]
pub struct Bounds {
    pub half_width: u32,
    pub half_height: u32,
}

impl View for Bounds {
    type V = Rect;

    open spec fn view(&self) -> Rect {
        Rect {
            center: Vector { x: 0, y: 0 },
            half: Vector { x: self.half_width as int, y: self.half_height as int },
        }
    }
}

/// On one axis, the coordinate `p` advanced by `v * dt`.
pub(crate) fn advance_axis(p: i64, v: i64, dt: u32) -> (r: i128)
    ensures
        r == p + v * dt,
{
    assert(-0x8000_0000_0000_0000 * 0x1_0000_0000 <= v * dt <= 0x8000_0000_0000_0000
        * 0x1_0000_0000) by (nonlinear_arith)
        requires
            -0x8000_0000_0000_0000 <= v <= 0x8000_0000_0000_0000,
            0 <= dt <= 0x1_0000_0000,
    ;
    p as i128 + v as i128 * dt as i128
}

/// On one axis, the coordinate `p` moved into the span that reaches `limit`
/// to either side of zero.
pub(crate) fn clamp_axis(p: i128, limit: u32) -> (r: i64)
    ensures
        r == clamp(p as int, -limit, limit as int),
{
    let reach: i128 = limit as i128;
    if p < -reach {
        (-reach) as i64
    } else if p > reach {
        reach as i64
    } else {
        p as i64
    }
}

/// On one axis, the velocity `v` of a body that has arrived at `p`: mirrored
/// when `p` lies further than `limit` from zero.
pub(crate) fn reflect_axis(p: i128, v: i64, limit: u32) -> (r: i64)
    requires
        v > i64::MIN,
    ensures
        r == if p > limit || p < -limit {
            -v
        } else {
            v as int
        },
{
    let reach: i128 = limit as i128;
    if p > reach || p < -reach {
        -v
    } else {
        v
    }
}

impl Bounds {
    /// The bounds that reach `half_width` to either side of the origin and
    /// `half_height` up and down.
    pub fn new(half_width: u32, half_height: u32) -> (b: Bounds)
        ensures
            b == (Bounds { half_width, half_height }),
    {
        Bounds { half_width, half_height }
    }

    /// Whether `position` lies within the bounds, the edges counted in.
    pub fn contains(&self, position: Point) -> (r: bool)
        ensures
            r == self@.contains(position@),
    {
        let w: i64 = self.half_width as i64;
        let h: i64 = self.half_height as i64;
        -w <= position.x && position.x <= w && -h <= position.y && position.y <= h
    }

    /// The position brought back into the bounds: the nearest point within
    /// them. A position that lies within the bounds is returned unchanged.
    pub fn clamp(&self, position: Point) -> (r: Point)
        ensures
            r@ == self@.closest_point(position@),
            self@.contains(r@),
            self@.contains(position@) ==> r == position,
    {
        Point {
            x: clamp_axis(position.x as i128, self.half_width),
            y: clamp_axis(position.y as i128, self.half_height),
        }
    }

    /// The velocity of a body that has arrived at `position`: mirrored on
    /// each axis on which `position` lies outside the bounds. The speed stays
    /// what it was.
    pub fn reflect(&self, position: Point, velocity: Velocity) -> (r: Velocity)
        requires
            velocity.wf(),
        ensures
            r@ == reflect_spec(self@, position@, velocity@),
            r.wf(),
            r@.length_squared() == velocity@.length_squared(),
    {
        proof {
            lemma_reflection_conserves_speed(self@, position@, velocity@);
        }
        Velocity {
            x: reflect_axis(position.x as i128, velocity.x, self.half_width),
            y: reflect_axis(position.y as i128, velocity.y, self.half_height),
        }
    }
}

/// The position after the time `dt`, nothing else applied: no bound mirrors
/// the body or holds it back. `None` when, and only when, the new position
/// lies off the grid, that is, cannot be held in a `Point`.
pub fn integrate(position: Point, velocity: Velocity, dt: u32) -> (r: Option<Point>)
    ensures
        match r {
            Some(p) => p@ == integrate_spec(position@, velocity@, dt as int),
            None => !integrate_spec(position@, velocity@, dt as int).fits_i64(),
        },
{
    let x: i128 = advance_axis(position.x, velocity.x, dt);
    let y: i128 = advance_axis(position.y, velocity.y, dt);
    if x < i64::MIN as i128 || x > i64::MAX as i128 || y < i64::MIN as i128 || y > i64::MAX as i128 {
        None
    } else {
        Some(Point { x: x as i64, y: y as i64 })
    }
}

/// One tick of a moving body inside the bounds. The position advances by
/// `velocity * dt`; each velocity component changes sign if the advanced
/// position left the bounds on its axis; the position is brought back into
/// the bounds whether or not anything was mirrored. Returns the new position
/// and the new velocity.
pub fn apply_velocity(
    position: Point,
    velocity: Velocity,
    dt: u32,
    bounds: &Bounds,
) -> (r: (Point, Velocity))
    requires
        velocity.wf(),
    ensures
        r.0@ == bounds@.closest_point(integrate_spec(position@, velocity@, dt as int)),
        r.1@ == reflect_spec(
            bounds@,
            integrate_spec(position@, velocity@, dt as int),
            velocity@,
        ),
        bounds@.contains(r.0@),
        r.1.wf(),
        r.1@.length_squared() == velocity@.length_squared(),
{
    proof {
        lemma_reflection_conserves_speed(
            bounds@,
            integrate_spec(position@, velocity@, dt as int),
            velocity@,
        );
    }
    let x: i128 = advance_axis(position.x, velocity.x, dt);
    let y: i128 = advance_axis(position.y, velocity.y, dt);
    let moved = Point {
        x: clamp_axis(x, bounds.half_width),
        y: clamp_axis(y, bounds.half_height),
    };
    let mirrored = Velocity {
        x: reflect_axis(x, velocity.x, bounds.half_width),
        y: reflect_axis(y, velocity.y, bounds.half_height),
    };
    (moved, mirrored)
}

/// Mirroring a vector in either axis leaves its length what it was.
pub proof fn lemma_flip_conserves_speed(v: Vector)
    ensures
        v.flipped_x().length_squared() == v.length_squared(),
        v.flipped_y().length_squared() == v.length_squared(),
{
    assert((-v.x) * (-v.x) == v.x * v.x) by (nonlinear_arith);
    assert((-v.y) * (-v.y) == v.y * v.y) by (nonlinear_arith);
}

/// Reflection conserves speed: wherever the body has arrived, the velocity
/// that the bounds hand back is as long as the one they were given.
pub proof fn lemma_reflection_conserves_speed(bounds: Rect, position: Vector, velocity: Vector)
    ensures
        reflect_spec(bounds, position, velocity).length_squared() == velocity.length_squared(),
{
    assert((-velocity.x) * (-velocity.x) == velocity.x * velocity.x) by (nonlinear_arith);
    assert((-velocity.y) * (-velocity.y) == velocity.y * velocity.y) by (nonlinear_arith);
}

/// Clamping is idempotent: the nearest point within a well-formed rectangle
/// lies in the rectangle, and a point that lies in it is its own nearest
/// point. So clamping a second time changes nothing.
pub proof fn lemma_clamp_idempotent(bounds: Rect, position: Vector)
    requires
        bounds.wf(),
    ensures
        bounds.contains(bounds.closest_point(position)),
        bounds.contains(position) ==> bounds.closest_point(position) == position,
        bounds.closest_point(bounds.closest_point(position)) == bounds.closest_point(position),
{
}

} // verus!
