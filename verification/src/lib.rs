//! A verified two-player pong simulation.
//!
//! The state lives in [`game::PongGame`]; one frame is a call of
//! [`game::PongGame::update`], whose contract pins the whole transition
//! down to the mathematical step function [`game::game_step`]. Coordinates
//! are exact integers (subunits of a screen unit), so every frame is
//! reproducible and each law in [`laws`] is a theorem: paddles stay on
//! screen across any run of frames, scores only grow and only on the
//! matching exit, a scoring frame recenters the ball, and every bounce
//! points the ball away from what it hit. [`text`] renders the score line
//! verified to the exact character.

pub mod game;
pub mod geom;
pub mod laws;
pub mod text;
