//! Game rules of a small top-down arcade shooter: the control panel state,
//! enemy waves and their roster, the pseudo-random source that drives wave
//! composition, trail emission timing and the player's input directions.
//!
//! Everything here works on plain values; the rendering engine, the windows
//! and the floating-point motion live around this library.

pub mod collisions;
pub mod controls;
pub mod effects;
pub mod enemies;
pub mod random;
pub mod ui;
