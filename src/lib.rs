//! Game logic of a side-scrolling flap-through-the-gaps arcade game: player
//! physics, obstacle spawning and collision, scrolling-background sampling,
//! the settings menu, the three-mode controller and the high-score text.
//!
//! Positions that move by fractions of a cell are kept in fixed point:
//! velocities in tenths of a cell, obstacle positions and the spawn distance in
//! half cells, elapsed time in microseconds and the background offset in
//! millionths of a cell.

pub mod config;
pub mod physics;
pub mod menu;
pub mod scroll;
pub mod highscore;
pub mod game;
pub mod laws;
