//! A snake game engine: a creature moves on a bounded grid, grows by eating
//! fruit, and the game ends when it leaves the board or bites itself.
pub mod vec2;
pub mod snake;
pub mod gamestate;
