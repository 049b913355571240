//! Plain paint-state values carried through the pipeline: colors, blend
//! modes and frame clear options.

use vstd::prelude::*;

verus! {

/// An RGBA color with 8-bit channels.
#[derive(Clone, Copy, PartialEq, Eq, Structural, Debug)]
pub struct Color {
    pub r: u8,
    pub g: u8,
    pub b: u8,
    pub a: u8,
}

impl Color {
    /// Opaque white, the default tint.
    pub fn white() -> (c: Color)
        ensures
            c == (Color { r: 255, g: 255, b: 255, a: 255 }),
    {
        Color { r: 255, g: 255, b: 255, a: 255 }
    }
}

/// How incoming fragments combine with the framebuffer.
#[derive(Clone, Copy, PartialEq, Eq, Structural, Debug)]
pub enum BlendMode {
    Normal,
    Add,
    Multiply,
    Screen,
    Erase,
}

/// What the device clears when a frame begins.
#[derive(Clone, Copy, PartialEq, Eq, Structural, Debug)]
pub struct ClearOptions {
    pub color: Option<Color>,
}

impl ClearOptions {
    /// Clear options that clear nothing.
    pub fn none() -> (c: ClearOptions)
        ensures
            c == (ClearOptions { color: None }),
    {
        ClearOptions { color: None }
    }
}

} // verus!
