//! An immediate-mode 2D drawing core and an asset-loading pipeline.
//!
//! The drawing side accumulates shapes, images and tiled patterns under a
//! retained transform and paint state, groups them by paint mode, and emits
//! one flush boundary exactly where the mode changes or the frame ends.
//! The asset side tracks in-flight loads, dispatches raw bytes to the loader
//! registered for the id's extension (falling back to a raw-byte loader),
//! and hands out handles that become readable once loading completes.
//!
//! Geometry is carried over exact integer coordinates; texture-space
//! coordinates are exact rationals. The GPU device, buffer objects, shape
//! tessellation and asset decoders are outside collaborators: the core
//! records what must happen at that boundary as [`command::Command`] values
//! for the caller to execute.

pub mod assets;
pub mod color;
pub mod command;
pub mod draw;
pub mod laws;
pub mod mat;
pub mod num;
pub mod text;
pub mod texture;

use vstd::prelude::*;

verus! {

} // verus!
