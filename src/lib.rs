//! The state engine of a snake game on a wrap-around grid: coordinates,
//! direction control, the snake's body, food placement and the tick that
//! moves, grows or ends the game.

pub mod geometry;
pub mod direction;
pub mod body;
pub mod game;
