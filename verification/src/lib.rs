//! A verified engine for a 4x4 grid game: two teams drop markers into
//! columns under gravity, a win detector classifies the outcome after every
//! move, a seeded generator produces preview boards, and a renderer turns a
//! game state into its fixed textual form.

pub mod board;
pub mod cells;
pub mod errors;
pub mod game;
pub mod laws;
pub mod render;
pub mod rng;
pub mod service;
