//! Which side of a box a ball has struck, and what the ball's velocity is
//! afterwards.

use crate::geometry::{axis_offset, magnitude};
use crate::geometry::{lemma_intersects_iff_overlaps, lemma_square_monotone};
use crate::geometry::{Aabb, Circle, Disc, Rect, Vector};
use crate::motion::{lemma_flip_conserves_speed, Velocity};
use vstd::prelude::*;

verus! {

/// A side of a box.
#[derive(Clone, Copy, Debug, PartialEq, Eq, Structural)]
pub enum Side {
    Left,
    Right,
    Top,
    Bottom,
}

/// What a circle and a box have to do with each other: nothing, or the circle
/// has struck one side of the box.
#[derive(Clone, Copy, Debug, PartialEq, Eq, Structural)]
pub enum Collision {
    NoCollision,
    Hit(Side),
}

/// The side that is struck when `offset` leads from the box's nearest point
/// to the circle's centre. The longer component decides between the pairs
/// left/right and top/bottom; where neither is longer, top/bottom wins. Within
/// left/right a zero `x` counts as right, within top/bottom a zero `y` counts
/// as bottom. So exactly one side is named, also at a corner and also for an
/// offset of zero, which a centre inside the box has.
pub open spec fn side_struck(offset: Vector) -> Side {
    if magnitude(offset.x) > magnitude(offset.y) {
        if offset.x < 0 {
            Side::Left
        } else {
            Side::Right
        }
    } else if offset.y > 0 {
        Side::Top
    } else {
        Side::Bottom
    }
}

/// The collision of a disc with a rectangle: none unless the two meet,
/// otherwise a hit on the side that the offset of the disc's centre names.
pub open spec fn classify_spec(disc: Disc, rect: Rect) -> Collision {
    if disc.intersects(rect) {
        Collision::Hit(side_struck(rect.offset_to(disc.center)))
    } else {
        Collision::NoCollision
    }
}

/// The velocity after a collision. Only a paddle answers: a hit on its left
/// or right side mirrors `x`, a hit on its top or bottom mirrors `y`. Any
/// other collider, and no collision, leave the velocity as it is.
pub open spec fn respond_spec(velocity: Vector, collision: Collision, paddle: bool) -> Vector {
    match collision {
        Collision::Hit(side) if paddle => match side {
            Side::Left | Side::Right => velocity.flipped_x(),
            Side::Top | Side::Bottom => velocity.flipped_y(),
        },
        _ => velocity,
    }
}

/// Something the ball can run into: a box, and whether it is the paddle.
#[derive(Clone, Copy, Debug, PartialEq, Eq, Structural)]
pub struct Collider {
    pub shape: Aabb,
    pub paddle: bool,
}

/// The velocity of a ball after it has been tested against one collider.
pub open spec fn bounce_spec(ball: Disc, velocity: Vector, collider: Collider) -> Vector {
    respond_spec(velocity, classify_spec(ball, collider.shape@), collider.paddle)
}

/// The velocity of a ball after it has been tested against each collider in
/// turn, every test starting from the velocity that the one before left.
pub open spec fn resolve_spec(ball: Disc, velocity: Vector, colliders: Seq<Collider>) -> Vector
    decreases colliders.len(),
{
    if colliders.len() == 0 {
        velocity
    } else {
        bounce_spec(ball, resolve_spec(ball, velocity, colliders.drop_last()), colliders.last())
    }
}

/// Decides whether `circle` and `aabb` collide and, if they do, which side of
/// the box was struck. They collide exactly when they have a point in common.
pub fn classify(circle: Circle, aabb: Aabb) -> (r: Collision)
    ensures
        r == classify_spec(circle@, aabb@),
        r == Collision::NoCollision <==> !circle@.overlaps(aabb@),
{
    proof {
        lemma_no_overlap_no_collision(circle@, aabb@);
    }
    if !circle.intersects(&aabb) {
        return Collision::NoCollision;
    }
    let dx: i128 = axis_offset(circle.center.x, aabb.center.x, aabb.half_width);
    let dy: i128 = axis_offset(circle.center.y, aabb.center.y, aabb.half_height);
    let wide: i128 = if dx < 0 {
        -dx
    } else {
        dx
    };
    let tall: i128 = if dy < 0 {
        -dy
    } else {
        dy
    };
    let side = if wide > tall {
        if dx < 0 {
            Side::Left
        } else {
            Side::Right
        }
    } else if dy > 0 {
        Side::Top
    } else {
        Side::Bottom
    };
    Collision::Hit(side)
}

/// The ball's velocity after `collision` with a collider that is the paddle
/// or is not. The speed stays what it was.
pub fn respond(velocity: Velocity, collision: Collision, paddle: bool) -> (r: Velocity)
    requires
        velocity.wf(),
    ensures
        r@ == respond_spec(velocity@, collision, paddle),
        r.wf(),
        r@.length_squared() == velocity@.length_squared(),
{
    if !paddle {
        return velocity;
    }
    match collision {
        Collision::NoCollision => velocity,
        Collision::Hit(Side::Left) | Collision::Hit(Side::Right) => velocity.flip_x(),
        Collision::Hit(Side::Top) | Collision::Hit(Side::Bottom) => velocity.flip_y(),
    }
}

/// The ball's velocity after it has been tested against one collider.
pub fn bounce(ball: Circle, velocity: Velocity, collider: &Collider) -> (r: Velocity)
    requires
        velocity.wf(),
    ensures
        r@ == bounce_spec(ball@, velocity@, *collider),
        r.wf(),
        r@.length_squared() == velocity@.length_squared(),
{
    respond(velocity, classify(ball, collider.shape), collider.paddle)
}

/// The ball's velocity after it has been tested against every collider, in
/// the order of the list. The speed stays what it was.
pub fn check_for_collisions(
    ball: Circle,
    velocity: Velocity,
    colliders: &Vec<Collider>,
) -> (r: Velocity)
    requires
        velocity.wf(),
    ensures
        r@ == resolve_spec(ball@, velocity@, colliders@),
        r.wf(),
        r@.length_squared() == velocity@.length_squared(),
{
    let mut current = velocity;
    let mut i: usize = 0;
    while i < colliders.len()
        invariant
            i <= colliders.len(),
            current.wf(),
            current@ == resolve_spec(ball@, velocity@, colliders@.take(i as int)),
            current@.length_squared() == velocity@.length_squared(),
        decreases colliders.len() - i,
    {
        assert(colliders@.take(i + 1).drop_last() == colliders@.take(i as int));
        current = bounce(ball, current, &colliders[i]);
        i = i + 1;
    }
    assert(colliders@.take(i as int) == colliders@);
    current
}

/// A disc and a well-formed rectangle that have no point in common do not
/// collide; if they have one, some side is struck.
pub proof fn lemma_no_overlap_no_collision(disc: Disc, rect: Rect)
    requires
        rect.wf(),
    ensures
        !disc.overlaps(rect) <==> classify_spec(disc, rect) == Collision::NoCollision,
{
    lemma_intersects_iff_overlaps(disc, rect);
}

/// A disc that meets a rectangle from the left strikes its left side. To come
/// from the left is this: the centre lies left of the rectangle, the two
/// touch or overlap, and the centre is further from the rectangle sideways
/// than up or down. The last holds of every centre that is level with the
/// rectangle, and fails near a corner, for a centre that lies further above
/// or below the corner than left of it.
pub proof fn lemma_left_of_box_hits_left(disc: Disc, rect: Rect)
    requires
        disc.center.x < rect.min().x,
        disc.intersects(rect),
        magnitude(rect.offset_to(disc.center).y) < magnitude(rect.offset_to(disc.center).x),
    ensures
        classify_spec(disc, rect) == Collision::Hit(Side::Left),
{
}

/// The plainest case of meeting from the left: a disc whose centre is level
/// with a rectangle, left of it and no further from its left edge than the
/// radius strikes the left side.
pub proof fn lemma_level_left_of_box_hits_left(disc: Disc, rect: Rect)
    requires
        rect.wf(),
        disc.radius >= 0,
        disc.center.x < rect.min().x,
        rect.min().x - disc.center.x <= disc.radius,
        rect.min().y <= disc.center.y <= rect.max().y,
    ensures
        classify_spec(disc, rect) == Collision::Hit(Side::Left),
{
    let reach = rect.closest_point(disc.center).minus(disc.center);
    assert(reach == Vector { x: rect.min().x - disc.center.x, y: 0 });
    lemma_square_monotone(reach.x, disc.radius);
    assert(reach.y * reach.y == 0) by (nonlinear_arith)
        requires
            reach.y == 0,
    ;
    lemma_left_of_box_hits_left(disc, rect);
}

/// A collision response conserves speed, whatever was struck.
pub proof fn lemma_response_conserves_speed(velocity: Vector, collision: Collision, paddle: bool)
    ensures
        respond_spec(velocity, collision, paddle).length_squared() == velocity.length_squared(),
{
    lemma_flip_conserves_speed(velocity);
}

/// Testing a ball against any list of colliders conserves its speed.
pub proof fn lemma_resolve_conserves_speed(ball: Disc, velocity: Vector, colliders: Seq<Collider>)
    ensures
        resolve_spec(ball, velocity, colliders).length_squared() == velocity.length_squared(),
    decreases colliders.len(),
{
    if colliders.len() > 0 {
        let before = resolve_spec(ball, velocity, colliders.drop_last());
        lemma_resolve_conserves_speed(ball, velocity, colliders.drop_last());
        lemma_response_conserves_speed(
            before,
            classify_spec(ball, colliders.last().shape@),
            colliders.last().paddle,
        );
    }
}

} // verus!
