//! A minimal real-time pixel-buffer renderer core: a raster image is decoded
//! once into a raw RGBA pixel buffer, composited every frame onto a fixed-size
//! destination buffer at a centered offset, and a triangle-wave oscillator
//! derives a background intensity per tick. Presentation (window, surface,
//! event loop) is an external collaborator and lives outside this crate.

use vstd::prelude::*;

pub mod animation;
pub mod compositor;
pub mod driver;
pub mod image;
pub mod world;

verus! {

/// Width of the fixed internal destination frame, in pixels.
pub const DEST_WIDTH: usize = 320;

/// Height of the fixed internal destination frame, in pixels.
pub const DEST_HEIGHT: usize = 240;

} // verus!
