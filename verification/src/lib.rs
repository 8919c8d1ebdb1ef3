//! A grid-based snake game engine: the snake body, heading, food and
//! terminal flag, the per-tick update rule with collision detection and
//! growth, food placement, and the input-to-direction mapping with its
//! reversal guard. Rendering, keyboard capture and frame pacing are left
//! to the driver around the engine.

pub mod engine;
pub mod grid;
pub mod input;
mod rng;
