//! A two-paddle ball-bouncing game for a character-grid terminal.
//!
//! The library holds the verified core: the game state model, the
//! simulation step that advances paddles, ball, and scores on each tick,
//! and a renderer that turns a state snapshot into a list of drawing
//! commands. Terminal I/O (raw mode, cursor control, key polling, and the
//! execution of drawing commands) is left to the embedding program.

pub mod game;
pub mod render;
pub mod sim;

pub use game::Ball;
pub use render::DrawCmd;
pub use game::GameState;
pub use game::Paddle;
pub use sim::Key;
pub use sim::LoopState;
