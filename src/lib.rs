//! Simulation core of a slingshot arcade game: lice are flung at hair strands
//! rooted in a scalp; destroying every root wins, running out of lice loses.
//!
//! All quantities are fixed-point integers: lengths, speeds and health are in
//! thousandths of a world unit, durations in milliseconds.
use vstd::prelude::*;

pub mod timer;
pub mod geometry;
pub mod rng;
pub mod louse;
pub mod states;
pub mod hair;
pub mod chunks;
pub mod level;
pub mod launch;
pub mod ui;
pub mod game;
