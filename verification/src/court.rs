//! The fixed measures of the game, in whole world units. The origin of the
//! world is the bottom-left corner of the screen and `y` grows upward.
//!
//! The two measures that are not whole numbers are given as fractions.

use vstd::prelude::*;

verus! {

/// Width of a paddle.
pub const PADDLE_WIDTH: u16 = 20;

/// Height of a paddle.
pub const PADDLE_HEIGHT: u16 = 100;

/// Edge length of the square ball.
pub const BALL_SIZE: u16 = 20;

/// How far a paddle's hit zone reaches to the left and right of the paddle's
/// centre: the paddle's full width, twice what the paddle itself covers.
pub const HIT_ZONE_REACH_X: u16 = PADDLE_WIDTH;

/// How far a paddle's hit zone reaches above and below the paddle's centre:
/// the paddle's full height.
pub const HIT_ZONE_REACH_Y: u16 = PADDLE_HEIGHT;

/// How far from the ball's centre its two tested corners lie on each axis:
/// the ball's full edge length.
pub const BALL_CORNER_REACH: u16 = BALL_SIZE;

/// Magnitude of the acceleration a held direction key gives a paddle, in
/// units per second squared.
pub const PADDLE_ACCELERATION: i32 = 9;

/// Horizontal velocity of a served ball, in units per second.
pub const SERVE_VELOCITY_X: i32 = 100;

/// Vertical velocity of a served ball, in units per second.
pub const SERVE_VELOCITY_Y: i32 = 150;

/// The friction coefficient is `FRICTION_NUMERATOR / FRICTION_DENOMINATOR`
/// per second.
pub const FRICTION_NUMERATOR: u16 = 1;

pub const FRICTION_DENOMINATOR: u16 = 10;

/// A velocity component slower than
/// `REST_SPEED_NUMERATOR / REST_SPEED_DENOMINATOR` units per second is taken
/// to be at rest.
pub const REST_SPEED_NUMERATOR: u16 = 5;

pub const REST_SPEED_DENOMINATOR: u16 = 1000;

} // verus!
