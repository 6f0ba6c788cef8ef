//! The motion and collision rules of a paddle-and-ball arcade game, on an
//! integer grid.
//!
//! Lengths are whole numbers of grid steps, time is counted in whole units,
//! and a velocity is a number of steps per unit of time. How long a step and
//! a unit of time are is the caller's choice. On such a grid every rule is
//! exact: a position advances by velocity times elapsed time, a velocity
//! component changes sign when a bound or a side of the paddle is struck, and
//! nothing is ever rounded.
//!
//! A tick is one update of the game, from one frame to the next. It can be of
//! any length, and is always a single step: however long it is, a body moves
//! once and is tested once, and may so pass through something thin.

pub mod geometry;
pub mod collision;
pub mod motion;
pub mod player;
pub mod world;
