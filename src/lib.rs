//! A terminal snake game: the snake's movement, growth and collisions, the
//! apple it chases, and the decisions of the game loop.

pub mod snake;
pub mod apple;
pub mod game;
