//! The commands the drawing core emits at the GPU boundary.
//!
//! The device, the batcher buffer objects and the shape tessellator are
//! outside collaborators: instead of calling them, the core appends a
//! [`Command`] for every boundary action, in submission order, and the
//! caller executes the log. A draw submission ordering boundary is exactly
//! a `Flush` command.

use vstd::prelude::*;

use crate::color::{BlendMode, ClearOptions, Color};
use crate::mat::Mat4;
use crate::texture::Texture;

verus! {

/// One vertex position: x, y and the draw depth as z.
#[derive(Clone, Copy, PartialEq, Eq, Structural, Debug)]
pub struct Vertex {
    pub x: i64,
    pub y: i64,
    pub z: i64,
}

/// An exact texture-space coordinate, `num / den` with `den > 0`.
#[derive(Clone, Copy, PartialEq, Eq, Structural, Debug)]
pub struct Rational {
    pub num: i64,
    pub den: i64,
}

impl Rational {
    pub open spec fn wf(self) -> bool {
        self.den > 0
    }
}

/// The texture-space rectangle a quad samples: `u1,v1` at the top-left
/// corner, `u2,v2` at the bottom-right.
#[derive(Clone, Copy, PartialEq, Eq, Structural, Debug)]
pub struct UvRect {
    pub u1: Rational,
    pub v1: Rational,
    pub u2: Rational,
    pub v2: Rational,
}

/// A destination quad in top-left, top-right, bottom-left, bottom-right
/// order. Its triangulation is fixed: triangles (0,1,2) and (2,1,3).
#[derive(Clone, Copy, PartialEq, Eq, Structural, Debug)]
pub struct Quad {
    pub tl: Vertex,
    pub tr: Vertex,
    pub bl: Vertex,
    pub br: Vertex,
}

/// The rendering pipeline variant the next geometry goes to. A change of
/// mode is a flush boundary.
#[derive(Clone, Copy, PartialEq, Eq, Structural, Debug)]
pub enum PaintMode {
    Idle,
    Color,
    Image,
    Pattern,
    Text,
}

/// Which batchers hold data that a flush submits; `Idle` and `Text` have
/// no batcher here and flush nothing.
pub open spec fn mode_flushes(mode: PaintMode) -> bool {
    mode is Color || mode is Image || mode is Pattern
}

/// The projection a flush submits with: either the default orthographic
/// projection derived from the viewport (left 0, right `width`, top
/// `height`, bottom 0, near -1, far 1), or a caller override.
#[derive(Clone, Copy, PartialEq, Eq, Structural, Debug)]
pub enum Projection {
    Ortho { width: i64, height: i64 },
    Custom { matrix: Mat4 },
}

/// A shape whose vertex list the outside tessellator produces at the
/// boundary; the core fixes which shape, at what position, at what depth.
#[derive(Clone, Copy, PartialEq, Eq, Structural, Debug)]
pub enum ShapePath {
    Circle { x: i64, y: i64, radius: i64, depth: i64 },
    StrokeCircle { x: i64, y: i64, radius: i64, line_width: i64, depth: i64 },
    RoundedRect { x: i64, y: i64, width: i64, height: i64, corner_radius: i64, depth: i64 },
    StrokeRoundedRect {
        x: i64,
        y: i64,
        width: i64,
        height: i64,
        line_width: i64,
        corner_radius: i64,
        depth: i64,
    },
    StrokeTriangle {
        x1: i64,
        y1: i64,
        x2: i64,
        y2: i64,
        x3: i64,
        y3: i64,
        line_width: i64,
        depth: i64,
    },
    StrokeRect { x: i64, y: i64, width: i64, height: i64, line_width: i64, depth: i64 },
}

/// The paint state resolved at the moment of one push: tint, opacity,
/// blend override, active projection and active model matrix.
#[derive(Clone, Copy, PartialEq, Eq, Structural, Debug)]
pub struct PaintState {
    pub color: Color,
    pub alpha: u8,
    pub blend: Option<BlendMode>,
    pub projection: Projection,
    pub matrix: Mat4,
}

/// Geometry pushed on the color path: either an explicit vertex/index
/// list, or a shape handed to the tessellator.
#[derive(Clone, Debug)]
pub enum ColorGeometry {
    Raw { vertices: Vec<Vertex>, indices: Vec<u32> },
    Shape { path: ShapePath },
}

/// The mathematical value of a [`ColorGeometry`].
pub enum ColorGeom {
    Raw { vertices: Seq<Vertex>, indices: Seq<u32> },
    Shape { path: ShapePath },
}

impl View for ColorGeometry {
    type V = ColorGeom;

    open spec fn view(&self) -> ColorGeom {
        match self {
            ColorGeometry::Raw { vertices, indices } => ColorGeom::Raw {
                vertices: vertices@,
                indices: indices@,
            },
            ColorGeometry::Shape { path } => ColorGeom::Shape { path: *path },
        }
    }
}

/// One pre-tessellated piece of caller geometry, with its own color.
#[derive(Clone, Debug)]
pub struct GeometryData {
    pub vertices: Vec<Vertex>,
    pub indices: Vec<u32>,
    pub color: Color,
}

/// The mathematical value of a [`GeometryData`].
pub struct GeomData {
    pub vertices: Seq<Vertex>,
    pub indices: Seq<u32>,
    pub color: Color,
}

impl View for GeometryData {
    type V = GeomData;

    open spec fn view(&self) -> GeomData {
        GeomData { vertices: self.vertices@, indices: self.indices@, color: self.color }
    }
}

/// Caller geometry: a list of vertex/index batches drawn on the color path.
#[derive(Clone, Debug)]
pub struct Geometry {
    pub data: Vec<GeometryData>,
}

impl View for Geometry {
    type V = Seq<GeomData>;

    open spec fn view(&self) -> Seq<GeomData> {
        self.data@.map_values(|g: GeometryData| g@)
    }
}

/// One action at the GPU boundary, in submission order.
#[derive(Clone, Debug)]
pub enum Command {
    /// Device-level frame begin, with the configured clear options.
    BeginFrame { clear: ClearOptions },
    /// Device-level frame end.
    EndFrame,
    /// Submit whatever the batcher of `mode` has accumulated (a no-op on an
    /// empty batcher), under the given projection, and reset it.
    Flush { mode: PaintMode, projection: Projection },
    /// Append geometry to the color batcher.
    PushColor { geometry: ColorGeometry, state: PaintState },
    /// Append a textured quad to the image batcher.
    PushImage { texture: Texture, quad: Quad, uvs: UvRect, state: PaintState },
    /// Append a textured quad to the pattern batcher.
    PushPattern { texture: Texture, quad: Quad, uvs: UvRect, state: PaintState },
}

/// The mathematical value of a [`Command`].
pub enum Cmd {
    BeginFrame { clear: ClearOptions },
    EndFrame,
    Flush { mode: PaintMode, projection: Projection },
    PushColor { geometry: ColorGeom, state: PaintState },
    PushImage { texture: Texture, quad: Quad, uvs: UvRect, state: PaintState },
    PushPattern { texture: Texture, quad: Quad, uvs: UvRect, state: PaintState },
}

impl View for Command {
    type V = Cmd;

    open spec fn view(&self) -> Cmd {
        match self {
            Command::BeginFrame { clear } => Cmd::BeginFrame { clear: *clear },
            Command::EndFrame => Cmd::EndFrame,
            Command::Flush { mode, projection } => Cmd::Flush {
                mode: *mode,
                projection: *projection,
            },
            Command::PushColor { geometry, state } => Cmd::PushColor {
                geometry: geometry@,
                state: *state,
            },
            Command::PushImage { texture, quad, uvs, state } => Cmd::PushImage {
                texture: *texture,
                quad: *quad,
                uvs: *uvs,
                state: *state,
            },
            Command::PushPattern { texture, quad, uvs, state } => Cmd::PushPattern {
                texture: *texture,
                quad: *quad,
                uvs: *uvs,
                state: *state,
            },
        }
    }
}

/// How many draw submissions (flushes) a command log holds.
pub open spec fn flush_count(log: Seq<Cmd>) -> nat
    decreases log.len(),
{
    if log.len() == 0 {
        0
    } else {
        flush_count(log.drop_last()) + (if log.last() is Flush {
            1nat
        } else {
            0nat
        })
    }
}

} // verus!
