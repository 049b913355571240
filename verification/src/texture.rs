//! The read-only texture boundary: loaded flag, base atlas dimensions, and
//! the sub-rectangle ("frame") that identifies one sprite within the atlas.

use vstd::prelude::*;

verus! {

/// A sub-rectangle of a texture's base image, in texels.
#[derive(Clone, Copy, PartialEq, Eq, Structural, Debug)]
pub struct Frame {
    pub x: i64,
    pub y: i64,
    pub width: i64,
    pub height: i64,
}

/// What the drawing core reads of a texture object: whether its pixels have
/// arrived, the base dimensions of the atlas, and the frame in use.
/// The texture object itself (GPU handle, pixel store) is an outside
/// collaborator; `id` stands for it at the command boundary.
#[derive(Clone, Copy, PartialEq, Eq, Structural, Debug)]
pub struct Texture {
    pub id: u64,
    pub loaded: bool,
    pub base_width: i64,
    pub base_height: i64,
    pub frame: Frame,
}

/// The largest coordinate magnitude the drawing interface accepts.
pub open spec fn coord_limit() -> int {
    0x4000_0000
}

/// A caller-supplied coordinate: bounded so that the handful of sums a draw
/// call forms stay well inside the machine range.
pub open spec fn in_coord(v: int) -> bool {
    -coord_limit() <= v <= coord_limit()
}

/// A coordinate that may already be a short sum of caller coordinates, as
/// the 9-slice composition hands to the plain image calls.
pub open spec fn in_coord_wide(v: int) -> bool {
    -16 * coord_limit() <= v <= 16 * coord_limit()
}

impl Texture {
    /// A well-formed texture: positive dimensions (they divide texel
    /// coordinates into texture space) and frame bounds within range.
    pub open spec fn wf(self) -> bool {
        &&& 0 < self.base_width <= coord_limit()
        &&& 0 < self.base_height <= coord_limit()
        &&& 0 < self.frame.width <= coord_limit()
        &&& 0 < self.frame.height <= coord_limit()
        &&& 0 <= self.frame.x <= coord_limit()
        &&& 0 <= self.frame.y <= coord_limit()
    }

    /// Builds a texture view whose frame covers the whole base image.
    pub fn new(id: u64, loaded: bool, base_width: i64, base_height: i64) -> (t: Texture)
        requires
            0 < base_width <= coord_limit(),
            0 < base_height <= coord_limit(),
        ensures
            t == (Texture {
                id,
                loaded,
                base_width,
                base_height,
                frame: Frame { x: 0, y: 0, width: base_width, height: base_height },
            }),
            t.wf(),
    {
        Texture {
            id,
            loaded,
            base_width,
            base_height,
            frame: Frame { x: 0, y: 0, width: base_width, height: base_height },
        }
    }

    /// Builds a texture view cropped to the given atlas frame.
    pub fn with_frame(id: u64, loaded: bool, base_width: i64, base_height: i64, frame: Frame) -> (t: Texture)
        requires
            0 < base_width <= coord_limit(),
            0 < base_height <= coord_limit(),
            0 < frame.width <= coord_limit(),
            0 < frame.height <= coord_limit(),
            0 <= frame.x <= coord_limit(),
            0 <= frame.y <= coord_limit(),
        ensures
            t == (Texture { id, loaded, base_width, base_height, frame }),
            t.wf(),
    {
        Texture { id, loaded, base_width, base_height, frame }
    }

    /// Whether the texture's pixels have arrived; an unloaded texture makes
    /// image draws degrade to silent no-ops.
    pub fn is_loaded(&self) -> (b: bool)
        ensures
            b == self.loaded,
    {
        self.loaded
    }

    /// The width of the frame in use, the "size" a caller sees.
    pub fn width(&self) -> (w: i64)
        ensures
            w == self.frame.width,
    {
        self.frame.width
    }

    /// The height of the frame in use.
    pub fn height(&self) -> (h: i64)
        ensures
            h == self.frame.height,
    {
        self.frame.height
    }

    /// The full width of the base atlas image.
    pub fn base_width(&self) -> (w: i64)
        ensures
            w == self.base_width,
    {
        self.base_width
    }

    /// The full height of the base atlas image.
    pub fn base_height(&self) -> (h: i64)
        ensures
            h == self.base_height,
    {
        self.base_height
    }

    /// The sub-rectangle within the base image in use.
    pub fn frame(&self) -> (f: Frame)
        ensures
            f == self.frame,
    {
        self.frame
    }
}

} // verus!
