//! Core logic of a small hex-grid tile game: cube coordinates on a hexagonal
//! grid, the screen-space layout transform with exact pixel-to-hex rounding,
//! a selection region with boundary-outline extraction, and the pushdown
//! state machine that sequences the game states.

pub mod components;
pub mod coordinates;
pub mod def;
pub mod exact;
pub mod gameplay;
pub mod geometry;
pub mod hex;
pub mod input;
pub mod layout;
pub mod map;
pub mod region;
pub mod screen;
pub mod statemachine;
pub mod states;
