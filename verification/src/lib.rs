//! The rules of a toroidal-grid Snake game: grid movement with wraparound,
//! self-collision detection, food placement clear of the snake body, score
//! tracking, and the pause/play/game-over state machine. Rendering, audio
//! and window handling live outside this crate; they read the state kept
//! here and feed key presses back in.

pub mod config;
pub mod direction;
pub mod entity;
pub mod game;
pub mod geometry;
pub mod rng;
pub mod snake;
