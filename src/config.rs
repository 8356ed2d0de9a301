use vstd::prelude::*;
use crate::direction::Direction;

verus! {

/// Width of the level, in pixels.
pub const LEVEL_WIDTH: u32 = 800;

/// Height of the level, in pixels.
pub const LEVEL_HEIGHT: u32 = 600;

/// Number of tiles across the level.
pub const LEVEL_TILES_X: u32 = 32;

/// Number of tiles up the level.
pub const LEVEL_TILES_Y: u32 = 24;

/// Continuous coordinates are kept in tenths of a pixel.
pub const SUBPIXELS_PER_PIXEL: i64 = 10;

/// Distance the snake travels per tick, in sub-pixel units (1.5 pixels).
pub const SNAKE_SPEED: i64 = 15;

/// Direction of travel of a newly created snake.
pub const SNAKE_INITIAL_DIRECTION: Direction = Direction::Right;

} // verus!
