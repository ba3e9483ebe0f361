//! Orchestration core of a side-scrolling dodge game: the asset gate, the
//! parallax scroller, the one-second clock with the spawner and scorer it
//! drives, the collision arbiter, the off-screen reaper and the phase machine.
//!
//! Lengths are integer micro-units (one unit of the 16 by 9 viewport is
//! `SCALE` micro-units) and durations are integer microseconds, so every
//! computation here is exact.
pub mod constants;
pub mod enemy;
pub mod game;
pub mod assets;
pub mod background;
pub mod collision;
pub mod score;
pub mod state;
pub mod timer;
