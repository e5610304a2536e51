//! Core logic of a grid-based snake game on a fixed toroidal playfield: input
//! buffering with a reverse-direction guard, movement with wraparound,
//! self-collision detection, and food consumption, all stated and proved.
//! Windowing, rendering and random-number generation are left to callers,
//! which hand plain values in and out.
pub mod food;
pub mod game;
pub mod grid;
pub mod snake;
