//! Game simulation and timing engine for a small arcade game: an on-screen
//! target that moves on a fixed tick cadence, can be clicked to score a hunt,
//! and ends a timed round, with a bounded leaderboard of top scores.
//!
//! Time is measured in tenths of a second; random draws are fixed-point
//! integers at a scale of 1000, so every quantity is an integer and every
//! operation carries a proved contract.

pub mod assets;
pub mod config;
pub mod fly_model;
pub mod fly_viewmodel;
pub mod score;
pub mod tick;
pub mod utilities;
