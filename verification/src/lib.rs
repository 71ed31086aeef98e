//! The rules of a small paddle-and-ball arcade game, on a grid of whole pixels.
//!
//! The host runtime owns the window, the clock and the renderer. It hands this
//! library the arena's size and the key codes it receives, asks for one
//! simulation tick at a time, and paints the draw list that comes back.

pub mod ball;
pub mod config;
pub mod game;
pub mod geometry;
pub mod input;
pub mod laws;
pub mod paddle;
pub mod render;
