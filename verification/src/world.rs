//! The whole game: a paddle, a ball and the bounds of the world, the state
//! they start from, and the tick that carries them from one frame to the
//! next.
//!
//! The game keeps nothing between ticks but the `World`. Its view, `State`,
//! carries the rules of a tick as a function from state to state.

use crate::collision::lemma_response_conserves_speed;
use crate::collision::{bounce, classify_spec, respond_spec, Collider};
use crate::geometry::{Aabb, Circle, Disc, Point, Rect, Vector};
use crate::motion::{apply_velocity, integrate_spec, reflect_spec, Bounds, Velocity};
use crate::motion::{lemma_clamp_idempotent, lemma_reflection_conserves_speed};
use crate::player::{move_square, move_square_spec, Keys};
use vstd::prelude::*;

verus! {

/// The window's width, in window units. The world reaches half of it to
/// either side of the origin.
pub const WINDOW_WIDTH: u32 = 900;

/// The window's height, in window units. The world reaches half of it up and
/// down from the origin.
pub const WINDOW_HEIGHT: u32 = 600;

/// How far the paddle reaches from its position along both axes, in window
/// units.
pub const PADDLE_HALF_EXTENT: u32 = 32;

/// The ball's diameter, in window units.
pub const BALL_DIAMETER: u32 = 32;

/// How high above the origin the paddle starts, in window units.
pub const PADDLE_START_Y: u32 = 100;

/// How high above the origin the ball starts, in window units.
pub const BALL_START_Y: u32 = 200;

/// The state of a game in whole-number mathematics: the view of `World`.
pub struct State {
    /// The rectangle that the ball is kept in.
    pub bounds: Rect,
    /// The rectangle that the paddle fills.
    pub paddle: Rect,
    /// How far the paddle travels in one unit of time.
    pub paddle_speed: int,
    /// Whether the ball can strike the paddle.
    pub paddle_collider: bool,
    /// The disc that the ball fills.
    pub ball: Disc,
    /// The ball's velocity.
    pub ball_velocity: Vector,
}

impl State {
    /// Where the ball's motion alone would carry it in the time `dt`.
    pub open spec fn ball_target(self, dt: int) -> Vector {
        integrate_spec(self.ball.center, self.ball_velocity, dt)
    }

    /// The ball after a tick: at its target, brought back into the bounds.
    pub open spec fn ball_after(self, dt: int) -> Disc {
        Disc { center: self.bounds.closest_point(self.ball_target(dt)), radius: self.ball.radius }
    }

    /// The paddle after a tick: moved as the keys ask, and held back by
    /// nothing.
    pub open spec fn paddle_after(self, keys: Keys, dt: int) -> Rect {
        Rect {
            center: move_square_spec(self.paddle.center, keys, self.paddle_speed, dt),
            half: self.paddle.half,
        }
    }

    /// The ball's velocity after a tick. The bounds mirror it first, judging
    /// by the ball's target. If the paddle is a collider, the ball is tested
    /// against it next, both taken where the tick has put them.
    pub open spec fn ball_velocity_after(self, keys: Keys, dt: int) -> Vector {
        let mirrored = reflect_spec(self.bounds, self.ball_target(dt), self.ball_velocity);
        if self.paddle_collider {
            respond_spec(
                mirrored,
                classify_spec(self.ball_after(dt), self.paddle_after(keys, dt)),
                true,
            )
        } else {
            mirrored
        }
    }

    /// The state after a tick of length `dt` during which `keys` were held.
    pub open spec fn tick(self, keys: Keys, dt: int) -> State {
        State {
            bounds: self.bounds,
            paddle: self.paddle_after(keys, dt),
            paddle_speed: self.paddle_speed,
            paddle_collider: self.paddle_collider,
            ball: self.ball_after(dt),
            ball_velocity: self.ball_velocity_after(keys, dt),
        }
    }
}

/// The paddle: a box that the player steers. Its extents and its speed never
/// change; `collider` says whether the ball can strike it.
#[derive(Clone, Copy, Debug, PartialEq, Eq, Structural)]
pub struct Paddle {
    pub position: Point,
    pub half_width: u32,
    pub half_height: u32,
    pub speed: u32,
    pub collider: bool,
}

/// The ball: a circle that moves by itself.
#[derive(Clone, Copy, Debug, PartialEq, Eq, Structural)]
pub struct Ball {
    pub position: Point,
    pub radius: u32,
    pub velocity: Velocity,
}

/// The state of a game between two ticks.
#[derive(Clone, Copy, Debug, PartialEq, Eq, Structural)]
pub struct World {
    pub bounds: Bounds,
    pub paddle: Paddle,
    pub ball: Ball,
}

/// The fixed values that a game starts from.
#[derive(Clone, Copy, Debug, PartialEq, Eq, Structural)]
pub struct Config {
    /// The window's width; the world reaches half of it to either side.
    pub window_width: u32,
    /// The window's height; the world reaches half of it up and down.
    pub window_height: u32,
    /// Where the paddle starts.
    pub paddle_position: Point,
    /// How far the paddle reaches to either side of its position.
    pub paddle_half_width: u32,
    /// How far the paddle reaches above and below its position.
    pub paddle_half_height: u32,
    /// How far the paddle travels in one unit of time.
    pub paddle_speed: u32,
    /// Whether the ball can strike the paddle.
    pub paddle_collider: bool,
    /// Where the ball starts.
    pub ball_position: Point,
    /// The ball's diameter; its radius is half of it.
    pub ball_diameter: u32,
    /// The velocity that the ball starts with.
    pub ball_velocity: Velocity,
}

impl Config {
    /// The standard game on a grid of `steps_per_unit` steps to the window
    /// unit: the window, the paddle and the ball have their fixed measures
    /// and starting places, and the paddle is a collider. The two speeds, in
    /// steps per unit of time, are the caller's. `None` when, and only when,
    /// the window is too wide for the grid: its width in steps must fit in a
    /// `u32`.
    pub fn standard(
        steps_per_unit: u32,
        paddle_speed: u32,
        ball_velocity: Velocity,
    ) -> (r: Option<Config>)
        ensures
            match r {
                Some(config) => {
                    &&& config.window_width == WINDOW_WIDTH * steps_per_unit
                    &&& config.window_height == WINDOW_HEIGHT * steps_per_unit
                    &&& config.paddle_position@ == Vector {
                        x: 0,
                        y: PADDLE_START_Y * steps_per_unit,
                    }
                    &&& config.paddle_half_width == PADDLE_HALF_EXTENT * steps_per_unit
                    &&& config.paddle_half_height == PADDLE_HALF_EXTENT * steps_per_unit
                    &&& config.paddle_speed == paddle_speed
                    &&& config.paddle_collider
                    &&& config.ball_position@ == Vector { x: 0, y: BALL_START_Y * steps_per_unit }
                    &&& config.ball_diameter == BALL_DIAMETER * steps_per_unit
                    &&& config.ball_velocity == ball_velocity
                },
                None => WINDOW_WIDTH * steps_per_unit > u32::MAX,
            },
    {
        if steps_per_unit > u32::MAX / WINDOW_WIDTH {
            return None;
        }
        Some(
            Config {
                window_width: WINDOW_WIDTH * steps_per_unit,
                window_height: WINDOW_HEIGHT * steps_per_unit,
                paddle_position: Point { x: 0, y: (PADDLE_START_Y * steps_per_unit) as i64 },
                paddle_half_width: PADDLE_HALF_EXTENT * steps_per_unit,
                paddle_half_height: PADDLE_HALF_EXTENT * steps_per_unit,
                paddle_speed,
                paddle_collider: true,
                ball_position: Point { x: 0, y: (BALL_START_Y * steps_per_unit) as i64 },
                ball_diameter: BALL_DIAMETER * steps_per_unit,
                ball_velocity,
            },
        )
    }
}

impl Paddle {
    /// The box that the paddle fills.
    pub open spec fn shape(&self) -> Aabb {
        Aabb {
            center: self.position,
            half_width: self.half_width,
            half_height: self.half_height,
        }
    }

    /// The paddle's bounding box.
    pub fn aabb(&self) -> (b: Aabb)
        ensures
            b == self.shape(),
    {
        Aabb {
            center: self.position,
            half_width: self.half_width,
            half_height: self.half_height,
        }
    }
}

impl Ball {
    /// The circle that the ball fills.
    pub open spec fn shape(&self) -> Circle {
        Circle { center: self.position, radius: self.radius }
    }

    /// The ball's bounding circle.
    pub fn circle(&self) -> (c: Circle)
        ensures
            c == self.shape(),
    {
        Circle { center: self.position, radius: self.radius }
    }
}

impl View for World {
    type V = State;

    open spec fn view(&self) -> State {
        State {
            bounds: self.bounds@,
            paddle: self.paddle.shape()@,
            paddle_speed: self.paddle.speed as int,
            paddle_collider: self.paddle.collider,
            ball: self.ball.shape()@,
            ball_velocity: self.ball.velocity@,
        }
    }
}

/// The state that a game starts from: the bounds are half the window each
/// way, the ball's radius is half its diameter (halves are rounded down), and
/// everything else is as `config` gives it.
pub fn setup(config: &Config) -> (world: World)
    requires
        config.ball_velocity.wf(),
    ensures
        world.wf(),
        world.bounds == (Bounds {
            half_width: config.window_width / 2,
            half_height: config.window_height / 2,
        }),
        world.paddle == (Paddle {
            position: config.paddle_position,
            half_width: config.paddle_half_width,
            half_height: config.paddle_half_height,
            speed: config.paddle_speed,
            collider: config.paddle_collider,
        }),
        world.ball == (Ball {
            position: config.ball_position,
            radius: config.ball_diameter / 2,
            velocity: config.ball_velocity,
        }),
{
    World {
        bounds: Bounds::new(config.window_width / 2, config.window_height / 2),
        paddle: Paddle {
            position: config.paddle_position,
            half_width: config.paddle_half_width,
            half_height: config.paddle_half_height,
            speed: config.paddle_speed,
            collider: config.paddle_collider,
        },
        ball: Ball {
            position: config.ball_position,
            radius: config.ball_diameter / 2,
            velocity: config.ball_velocity,
        },
    }
}

impl World {
    /// A world is well formed when the ball's velocity is.
    pub open spec fn wf(&self) -> bool {
        self.ball.velocity.wf()
    }

    /// What `tick` asks of a world: that it is well formed, and that the
    /// paddle's position after the tick can be held in a `Point`. The ball's
    /// always can: it ends within the bounds.
    pub open spec fn can_tick_spec(&self, keys: Keys, dt: int) -> bool {
        self.wf() && self@.paddle_after(keys, dt).center.fits_i64()
    }

    /// Whether `tick` can be called with these keys and this `dt`.
    pub fn can_tick(&self, keys: Keys, dt: u32) -> (ok: bool)
        ensures
            ok == self.can_tick_spec(keys, dt as int),
    {
        self.ball.velocity.x > i64::MIN && self.ball.velocity.y > i64::MIN && move_square(
            self.paddle.position,
            keys,
            self.paddle.speed,
            dt,
        ).is_some()
    }

    /// One tick, in a fixed order: the ball moves, is mirrored by the bounds
    /// and brought back into them; the paddle moves as the keys ask; the ball
    /// is tested against the paddle where both now stand, and mirrored if it
    /// struck it. The ball ends within the bounds and as fast as it was.
    pub fn tick(&mut self, keys: Keys, dt: u32)
        requires
            old(self).can_tick_spec(keys, dt as int),
        ensures
            final(self)@ == old(self)@.tick(keys, dt as int),
            final(self).wf(),
            final(self).bounds@.contains(final(self).ball.position@),
            final(self).ball.velocity@.length_squared() == old(self).ball.velocity@.length_squared(),
    {
        let (position, mirrored) = apply_velocity(
            self.ball.position,
            self.ball.velocity,
            dt,
            &self.bounds,
        );
        self.ball.position = position;
        let moved = move_square(self.paddle.position, keys, self.paddle.speed, dt);
        self.paddle.position = moved.unwrap();
        if self.paddle.collider {
            let collider = Collider { shape: self.paddle.aabb(), paddle: true };
            self.ball.velocity = bounce(self.ball.circle(), mirrored, &collider);
        } else {
            self.ball.velocity = mirrored;
        }
    }
}

/// What every tick keeps, whatever the keys and however long the tick: the
/// ball ends within the bounds, as large and as fast as it was; the bounds,
/// the paddle's extents, its speed and whether it is a collider stay what
/// they were.
pub proof fn lemma_tick_invariants(state: State, keys: Keys, dt: int)
    requires
        state.bounds.wf(),
    ensures
        state.tick(keys, dt).bounds.contains(state.tick(keys, dt).ball.center),
        state.tick(keys, dt).ball_velocity.length_squared() == state.ball_velocity.length_squared(),
        state.tick(keys, dt).ball.radius == state.ball.radius,
        state.tick(keys, dt).bounds == state.bounds,
        state.tick(keys, dt).paddle.half == state.paddle.half,
        state.tick(keys, dt).paddle_speed == state.paddle_speed,
        state.tick(keys, dt).paddle_collider == state.paddle_collider,
{
    let target = state.ball_target(dt);
    let mirrored = reflect_spec(state.bounds, target, state.ball_velocity);
    lemma_clamp_idempotent(state.bounds, target);
    lemma_reflection_conserves_speed(state.bounds, target, state.ball_velocity);
    lemma_response_conserves_speed(
        mirrored,
        classify_spec(state.ball_after(dt), state.paddle_after(keys, dt)),
        true,
    );
}

} // verus!
