//! The player's control of the paddle: from the directional keys that are
//! held to a direction, and from the direction to the paddle's new position.

use crate::geometry::{Point, Vector};
use crate::motion::{integrate, integrate_spec, Velocity};
use vstd::prelude::*;

verus! {

/// Which of the four directional keys are held during a tick.
#[derive(Clone, Copy, Debug, PartialEq, Eq, Structural)]
pub struct Keys {
    pub left: bool,
    pub right: bool,
    pub up: bool,
    pub down: bool,
}

/// The direction that the held keys ask for; each component is -1, 0 or 1.
///
/// The two axes are not treated alike. Up and down add up, so held together
/// they cancel. Right overrides left: with both held, `x` is 1, not 0.
pub open spec fn direction_spec(keys: Keys) -> Vector {
    Vector {
        x: if keys.right {
            1
        } else if keys.left {
            -1
        } else {
            0
        },
        y: (if keys.up {
            1int
        } else {
            0int
        }) - (if keys.down {
            1int
        } else {
            0int
        }),
    }
}

/// Where a paddle that starts at `position` is after the time `dt`, when it
/// travels at `speed` in the direction that the keys ask for. Nothing bounds
/// the paddle: it is neither mirrored nor brought back at the world's edge.
pub open spec fn move_square_spec(position: Vector, keys: Keys, speed: int, dt: int) -> Vector {
    integrate_spec(position, direction_spec(keys).scaled(speed), dt)
}

/// A direction on the grid; each component is -1, 0 or 1.
#[derive(Clone, Copy, Debug, PartialEq, Eq, Structural)]
pub struct Direction {
    pub x: i8,
    pub y: i8,
}

impl View for Direction {
    type V = Vector;

    open spec fn view(&self) -> Vector {
        Vector { x: self.x as int, y: self.y as int }
    }
}

impl Keys {
    /// No key held.
    pub fn none() -> (k: Keys)
        ensures
            k == (Keys { left: false, right: false, up: false, down: false }),
    {
        Keys { left: false, right: false, up: false, down: false }
    }
}

/// The direction that the held keys ask for.
pub fn direction(keys: Keys) -> (d: Direction)
    ensures
        d@ == direction_spec(keys),
{
    let mut x: i8 = 0;
    let mut y: i8 = 0;
    if keys.left {
        x = x - 1;
    }
    if keys.right {
        x = 1;
    }
    if keys.up {
        y = y + 1;
    }
    if keys.down {
        y = y - 1;
    }
    Direction { x, y }
}

/// The velocity of a paddle that travels at `speed` in the direction that the
/// keys ask for.
pub fn paddle_velocity(keys: Keys, speed: u32) -> (v: Velocity)
    ensures
        v@ == direction_spec(keys).scaled(speed as int),
        v.wf(),
{
    let d = direction(keys);
    assert(-0x1_0000_0000 <= d.x * speed <= 0x1_0000_0000 && -0x1_0000_0000 <= d.y * speed
        <= 0x1_0000_0000) by (nonlinear_arith)
        requires
            -1 <= d.x <= 1,
            -1 <= d.y <= 1,
            0 <= speed <= 0x1_0000_0000,
    ;
    Velocity { x: d.x as i64 * speed as i64, y: d.y as i64 * speed as i64 }
}

/// Moves the player's square, the paddle: by `speed * dt` along each axis on
/// which the keys ask for movement, and not at all when no key is held.
/// `None` when, and only when, the new position lies off the grid.
pub fn move_square(position: Point, keys: Keys, speed: u32, dt: u32) -> (r: Option<Point>)
    ensures
        match r {
            Some(p) => p@ == move_square_spec(position@, keys, speed as int, dt as int),
            None => !move_square_spec(position@, keys, speed as int, dt as int).fits_i64(),
        },
{
    integrate(position, paddle_velocity(keys, speed), dt)
}

/// The paddle moves by its speed times the elapsed time, along the direction
/// that the keys ask for, from wherever it stands: no bound mirrors it or
/// holds it back.
pub proof fn lemma_paddle_moves_by_speed_times_time(
    position: Vector,
    keys: Keys,
    speed: int,
    dt: int,
)
    ensures
        move_square_spec(position, keys, speed, dt) == position.plus(
            direction_spec(keys).scaled(speed * dt),
        ),
{
    let d = direction_spec(keys);
    assert((d.x * speed) * dt == d.x * (speed * dt)) by (nonlinear_arith);
    assert((d.y * speed) * dt == d.y * (speed * dt)) by (nonlinear_arith);
}

/// A tick with only the left key held takes the paddle `speed * dt` to the
/// left, one with only the right key held as far to the right, and the two
/// in a row bring it back to where it was.
pub proof fn lemma_left_and_right_undo(position: Vector, speed: int, dt: int)
    ensures
        ({
            let left = Keys { left: true, right: false, up: false, down: false };
            let right = Keys { left: false, right: true, up: false, down: false };
            let there = move_square_spec(position, left, speed, dt);
            &&& there == Vector { x: position.x - speed * dt, y: position.y }
            &&& move_square_spec(position, right, speed, dt) == Vector {
                x: position.x + speed * dt,
                y: position.y,
            }
            &&& move_square_spec(there, right, speed, dt) == position
        }),
{
    assert((-1 * speed) * dt == -(speed * dt)) by (nonlinear_arith);
    assert((1 * speed) * dt == speed * dt) by (nonlinear_arith);
    assert((0 * speed) * dt == 0) by (nonlinear_arith);
}

} // verus!
