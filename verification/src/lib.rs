//! Core of an aim-training game: a target-motion simulator that moves a
//! target inside a bounded volume with randomized, constrained direction
//! changes, and a reaction-analysis pipeline that detects target direction
//! changes in a recorded time series and measures the player's reaction
//! latency to each one.
//!
//! All quantities are fixed-point integers: positions and direction vectors
//! in milliunits (one unit = 1000), time in microseconds, angles in whole
//! degrees, and cosines scaled by one million.

pub mod angle;
pub mod detect;
pub mod geom;
pub mod math;
pub mod react;
pub mod rng;
pub mod target;
pub mod sample;
pub mod session;
pub mod smooth;
pub mod stats;
pub mod trig;
pub mod trig_table;
pub mod vec;
