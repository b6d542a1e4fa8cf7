//! Turn-based artillery game logic: players, turns, rocket resolution,
//! keyboard commands, terrain masks and the particle pool's spawn cap.

pub mod game;
pub mod input;
pub mod terrain;
pub mod particles;
pub mod ui;
