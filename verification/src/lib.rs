//! A verified core for a two-paddle Pong game.
//!
//! The crate holds the per-frame rules of the game on an integer grid: how the
//! paddles move, how the ball travels, bounces and scores, and how the match
//! passes from title screen to play to game over. Windowing, input polling and
//! drawing are left to the caller, which hands each frame's input to
//! [`game::Game::tick`] and draws what the state then holds.

pub mod constants;
pub mod geometry;
pub mod score;
pub mod ball;
pub mod pad;
pub mod utils;
pub mod game;
mod random;
