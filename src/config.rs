use vstd::prelude::*;

verus! {

/// Width of the play area in logical pixels.
pub const SCREEN_WIDTH: u32 = 800;

/// Height of the play area in logical pixels.
pub const SCREEN_HEIGHT: u32 = 600;

/// Side length of one grid cell in logical pixels.
pub const CELL_SIZE: u32 = 15;

/// Number of cells of a freshly started snake.
pub const INITIAL_SNAKE_LENGTH: u32 = 10;

/// Milliseconds between two movement ticks.
pub const MOVE_INTERVAL_MS: u32 = 50;

/// Milliseconds over which frames are counted for the frame-rate display.
pub const FPS_WINDOW_MS: u32 = 1000;

} // verus!
