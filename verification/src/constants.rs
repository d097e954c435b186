//! Fixed settings of the game, in grid units.

use vstd::prelude::*;

verus! {

/// Width of the playing field the game is designed for.
pub const SCREEN_WIDTH: i64 = 1200;

/// Height of the playing field the game is designed for.
pub const SCREEN_HEIGHT: i64 = 650;

/// Width and height of a paddle.
pub const PAD_SIZE: (i64, i64) = (30, 100);

/// Gap between a paddle and the side wall behind it.
pub const PAD_MARGIN: i64 = 10;

/// Radius of the ball.
pub const BALL_RADIUS: i64 = 10;

/// Distance the ball travels along the x axis in one tick, and the largest
/// distance it travels along the y axis.
pub const BALL_SPEED: i64 = 6;

/// Distance the keyboard-driven paddle moves in one tick while a key is held.
pub const PLAYER_STEP: i64 = 5;

/// Distance the computer-driven paddle moves in one tick.
pub const ENEMY_STEP: i64 = 4;

/// Largest magnitude of a coordinate or a length that the library handles.
pub const COORD_MAX: i64 = 1_000_000_000;

/// Largest width or height of a viewport.
pub const VIEWPORT_MAX: i64 = 1_000_000;

} // verus!
