//! Frame bridge between an immediate-mode GUI context and a retained-mode
//! renderer: host input translation, per-frame input accumulation, texture
//! mirroring with partial updates, and a pool of drawable slots.
//!
//! All coordinates are fixed-point values in hundredths of a unit (pixels on
//! the host side, logical points on the GUI side).

pub mod keys;
pub mod input;
pub mod texture;
pub mod slots;
pub mod bridge;
