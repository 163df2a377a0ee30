//! The world-simulation engine of a terminal tunnel game: a player glyph
//! must stay inside a procedurally scrolling tunnel while avoiding spawned
//! enemies, and touching a wall ends the run.
//!
//! The library holds the verified simulation — tunnel generation, the
//! tick-gated scroll cycle, enemy population dynamics and collision
//! detection. Rendering, keyboard input and terminal handling live outside
//! it and only exchange plain values with the simulation.

pub mod enemy;
pub mod gate;
pub mod player;
pub mod roam;
mod rng;
pub mod tunnel;
pub mod world;
