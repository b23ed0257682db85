//! A first-person "walk around a tile-based level" core: a tile map of solid
//! cells, axis-aligned collision probes against placed block instances, and a
//! camera controller that integrates keyboard/mouse intents into a collision
//! constrained pose. All world quantities are fixed-point integers: distances
//! and velocities carry a scale of 1000 per world unit, angles a scale of
//! 1,000,000 per radian. Trigonometric samples of the current view angles are
//! supplied by the caller in the same fixed-point scale, so the whole model
//! stays within integer arithmetic.

pub mod camera;
pub mod collision;
pub mod controller;
pub mod fixed;
pub mod shapes;
pub mod tile_map;
