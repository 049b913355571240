//! The public 2D drawing surface: transform stack, paint state, shape,
//! image and pattern emission, and the paint-mode state machine that
//! decides where every flush boundary falls.
//!
//! Every operation is specified as a transition on [`DrawModel`]: the
//! mathematical state of the surface together with the log of commands
//! emitted at the GPU boundary so far. The central invariant is that a
//! batcher flush is emitted exactly when the paint mode changes away from
//! a batching mode, or when the frame ends — never between two calls of
//! the same mode.

use vstd::prelude::*;

use crate::color::{BlendMode, ClearOptions, Color};
use crate::command::{
    Cmd, ColorGeom, ColorGeometry, Command, Geometry, PaintMode, PaintState, Projection, Quad,
    Rational, ShapePath, UvRect, Vertex, mode_flushes,
};
use crate::mat::{Mat4, spec_mat_mul};
use crate::num::{floor_div, isqrt, spec_floor_div, spec_isqrt, spec_trunc_rem, trunc_rem};
use crate::texture::{Texture, in_coord, in_coord_wide};

verus! {

/// The mathematical state of a drawing surface.
pub struct DrawModel {
    pub depth: i64,
    pub color: Color,
    pub alpha: u8,
    pub blend_mode: Option<BlendMode>,
    pub projection: Option<Mat4>,
    pub matrix: Option<Mat4>,
    pub width: i64,
    pub height: i64,
    pub clear_options: ClearOptions,
    pub stack: Seq<Mat4>,
    pub mode: PaintMode,
    pub log: Seq<Cmd>,
}

impl DrawModel {
    /// The transform stack never empties and its bottom is the identity.
    pub open spec fn wf(self) -> bool {
        &&& self.stack.len() >= 1
        &&& self.stack[0] == Mat4::spec_identity()
    }
}

/// The value of a command list.
pub open spec fn log_of(commands: Seq<Command>) -> Seq<Cmd> {
    commands.map_values(|c: Command| c@)
}

proof fn lemma_log_push(commands: Seq<Command>, c: Command)
    ensures
        log_of(commands.push(c)) == log_of(commands).push(c@),
{
    assert(log_of(commands.push(c)) =~= log_of(commands).push(c@));
}

/// The projection a flush submits with: the caller override if one is
/// set, else the default orthographic projection of the viewport.
pub open spec fn active_projection(d: DrawModel) -> Projection {
    match d.projection {
        Some(m) => Projection::Custom { matrix: m },
        None => Projection::Ortho { width: d.width, height: d.height },
    }
}

/// The model matrix a push resolves: the caller override if one is set,
/// else the top of the transform stack.
pub open spec fn active_matrix(d: DrawModel) -> Mat4 {
    match d.matrix {
        Some(m) => m,
        None => d.stack.last(),
    }
}

/// The paint state resolved at the moment of one push, with an optional
/// per-push tint override.
pub open spec fn resolved_state(d: DrawModel, color: Option<Color>) -> PaintState {
    PaintState {
        color: match color {
            Some(c) => c,
            None => d.color,
        },
        alpha: d.alpha,
        blend: d.blend_mode,
        projection: active_projection(d),
        matrix: active_matrix(d),
    }
}

/// Flushing the active batcher: emits one `Flush` for a batching mode,
/// nothing otherwise.
pub open spec fn spec_flush(d: DrawModel) -> DrawModel {
    if mode_flushes(d.mode) {
        DrawModel {
            log: d.log.push(Cmd::Flush { mode: d.mode, projection: active_projection(d) }),
            ..d
        }
    } else {
        d
    }
}

/// The paint-mode transition: a request for the mode already active does
/// nothing; a change flushes the previous batcher, then switches.
pub open spec fn spec_set_mode(d: DrawModel, mode: PaintMode) -> DrawModel {
    if d.mode == mode {
        d
    } else {
        DrawModel { mode, ..spec_flush(d) }
    }
}

/// Appending geometry to the color batcher under the resolved state.
pub open spec fn spec_push_color(d: DrawModel, geometry: ColorGeom, color: Option<Color>) -> DrawModel {
    DrawModel { log: d.log.push(Cmd::PushColor { geometry, state: resolved_state(d, color) }), ..d }
}

/// A fresh surface over a viewport: default paint state, identity
/// transform stack, no mode active, empty log.
pub open spec fn spec_new(width: i64, height: i64) -> DrawModel {
    DrawModel {
        depth: 0,
        color: Color { r: 255, g: 255, b: 255, a: 255 },
        alpha: 255,
        blend_mode: Some(BlendMode::Normal),
        projection: None,
        matrix: None,
        width,
        height,
        clear_options: ClearOptions { color: None },
        stack: seq![Mat4::spec_identity()],
        mode: PaintMode::Idle,
        log: Seq::empty(),
    }
}

/// `push`: multiply the top of the stack by the given matrix and push.
pub open spec fn spec_push(d: DrawModel, m: Mat4) -> DrawModel {
    DrawModel { stack: d.stack.push(spec_mat_mul(d.stack.last(), m)), ..d }
}

/// `pop`: drop the top of the stack; a no-op at depth one.
pub open spec fn spec_pop(d: DrawModel) -> DrawModel {
    if d.stack.len() <= 1 {
        d
    } else {
        DrawModel { stack: d.stack.drop_last(), ..d }
    }
}

/// `begin`: configure the clear color and ask the device to begin the
/// frame.
pub open spec fn spec_begin(d: DrawModel, color: Color) -> DrawModel {
    let cleared = ClearOptions { color: Some(color) };
    DrawModel {
        clear_options: cleared,
        log: d.log.push(Cmd::BeginFrame { clear: cleared }),
        ..d
    }
}

/// `end`: force the paint mode off (flushing whatever was active), then
/// ask the device to end the frame.
pub open spec fn spec_end(d: DrawModel) -> DrawModel {
    let d2 = spec_set_mode(d, PaintMode::Idle);
    DrawModel { log: d2.log.push(Cmd::EndFrame), ..d2 }
}

/// The quad a filled rectangle emits: two triangles (0,1,2) and (2,1,3)
/// over corners in top-left, top-right, bottom-left, bottom-right order.
pub open spec fn rect_geom(x: int, y: int, width: int, height: int, depth: i64) -> ColorGeom {
    ColorGeom::Raw {
        vertices: seq![
            Vertex { x: x as i64, y: y as i64, z: depth },
            Vertex { x: (x + width) as i64, y: y as i64, z: depth },
            Vertex { x: x as i64, y: (y + height) as i64, z: depth },
            Vertex { x: (x + width) as i64, y: (y + height) as i64, z: depth },
        ],
        indices: seq![0u32, 1u32, 2u32, 2u32, 1u32, 3u32],
    }
}

/// `rect`: switch to the color mode and emit the rectangle's quad.
pub open spec fn spec_rect(d: DrawModel, x: i64, y: i64, width: i64, height: i64) -> DrawModel {
    spec_push_color(
        spec_set_mode(d, PaintMode::Color),
        rect_geom(x as int, y as int, width as int, height as int, d.depth),
        None,
    )
}

/// The triangle a `triangle` call emits.
pub open spec fn triangle_geom(x1: i64, y1: i64, x2: i64, y2: i64, x3: i64, y3: i64, depth: i64) -> ColorGeom {
    ColorGeom::Raw {
        vertices: seq![
            Vertex { x: x1, y: y1, z: depth },
            Vertex { x: x2, y: y2, z: depth },
            Vertex { x: x3, y: y3, z: depth },
        ],
        indices: seq![0u32, 1u32, 2u32],
    }
}

/// `triangle`: switch to the color mode and emit one triangle.
pub open spec fn spec_triangle(d: DrawModel, x1: i64, y1: i64, x2: i64, y2: i64, x3: i64, y3: i64) -> DrawModel {
    spec_push_color(
        spec_set_mode(d, PaintMode::Color),
        triangle_geom(x1, y1, x2, y2, x3, y3, d.depth),
        None,
    )
}

/// The offset vector that expands a line into a quad: perpendicular to
/// the line, of length `width` (the horizontal case is handled
/// explicitly, and a zero-length perpendicular skips normalization).
/// Normalization divides by the integer square root of the squared
/// length, rounding toward negative infinity.
pub open spec fn spec_line_offset(x1: i64, y1: i64, x2: i64, y2: i64, width: i64) -> (int, int) {
    if y1 == y2 {
        (0int, -(width as int))
    } else {
        let dx = x2 - x1;
        let dy = y2 - y1;
        let len = spec_isqrt((dx * dx + dy * dy) as nat) as int;
        if len == 0 {
            (dy, -dx)
        } else {
            (spec_floor_div(width * dy, len), spec_floor_div(-(width * dx), len))
        }
    }
}

/// The two triangles a line of the given width expands into: each end
/// point is moved half the offset one way and the whole offset back.
pub open spec fn line_geom(x1: i64, y1: i64, x2: i64, y2: i64, width: i64, depth: i64) -> ColorGeom {
    let (vx, vy) = spec_line_offset(x1, y1, x2, y2, width);
    let hx = spec_floor_div(vx, 2);
    let hy = spec_floor_div(vy, 2);
    let px1 = x1 + hx;
    let py1 = y1 + hy;
    let px2 = x2 + hx;
    let py2 = y2 + hy;
    let px3 = px1 - vx;
    let py3 = py1 - vy;
    let px4 = px2 - vx;
    let py4 = py2 - vy;
    ColorGeom::Raw {
        vertices: seq![
            Vertex { x: px1 as i64, y: py1 as i64, z: depth },
            Vertex { x: px2 as i64, y: py2 as i64, z: depth },
            Vertex { x: px3 as i64, y: py3 as i64, z: depth },
            Vertex { x: px3 as i64, y: py3 as i64, z: depth },
            Vertex { x: px2 as i64, y: py2 as i64, z: depth },
            Vertex { x: px4 as i64, y: py4 as i64, z: depth },
        ],
        indices: seq![0u32, 1u32, 2u32, 3u32, 4u32, 5u32],
    }
}

/// `line`: switch to the color mode and emit the expanded quad.
pub open spec fn spec_line(d: DrawModel, x1: i64, y1: i64, x2: i64, y2: i64, width: i64) -> DrawModel {
    spec_push_color(spec_set_mode(d, PaintMode::Color), line_geom(x1, y1, x2, y2, width, d.depth), None)
}

/// A shape draw: switch to the color mode and hand the path to the
/// tessellator at the boundary, at the current depth.
pub open spec fn spec_shape(d: DrawModel, path: ShapePath) -> DrawModel {
    spec_push_color(spec_set_mode(d, PaintMode::Color), ColorGeom::Shape { path }, None)
}

/// The pushes `geometry` performs from position `i` on: one per batch,
/// each with the batch's own color.
pub open spec fn spec_geometry_from(d: DrawModel, gs: Seq<crate::command::GeomData>, i: int) -> DrawModel
    decreases gs.len() - i,
{
    if i < 0 || i >= gs.len() {
        d
    } else {
        spec_geometry_from(
            spec_push_color(
                d,
                ColorGeom::Raw { vertices: gs[i].vertices, indices: gs[i].indices },
                Some(gs[i].color),
            ),
            gs,
            i + 1,
        )
    }
}

/// `geometry`: switch to the color mode, then push every batch in order.
pub open spec fn spec_geometry(d: DrawModel, gs: Seq<crate::command::GeomData>) -> DrawModel {
    spec_geometry_from(spec_set_mode(d, PaintMode::Color), gs, 0)
}

/// The destination quad between opposite corners `(x, y)` and `(x2, y2)`.
pub open spec fn image_quad(x: int, y: int, x2: int, y2: int, depth: i64) -> Quad {
    Quad {
        tl: Vertex { x: x as i64, y: y as i64, z: depth },
        tr: Vertex { x: x2 as i64, y: y as i64, z: depth },
        bl: Vertex { x: x as i64, y: y2 as i64, z: depth },
        br: Vertex { x: x2 as i64, y: y2 as i64, z: depth },
    }
}

/// The command one image draw appends: destination quad from the dest
/// arguments, source rectangle from the frame plus the source arguments,
/// normalized by the base dimensions. A zero width, height, source width
/// or source height means "the frame's own dimension".
pub open spec fn image_push_cmd(
    d: DrawModel,
    img: Texture,
    x: int,
    y: int,
    width: int,
    height: int,
    source_x: int,
    source_y: int,
    source_width: int,
    source_height: int,
) -> Cmd {
    let frame = img.frame;
    let ww = if width == 0 {
        frame.width as int
    } else {
        width
    };
    let hh = if height == 0 {
        frame.height as int
    } else {
        height
    };
    let sx = frame.x + source_x;
    let sy = frame.y + source_y;
    let sw = if source_width == 0 {
        frame.width as int
    } else {
        source_width
    };
    let sh = if source_height == 0 {
        frame.height as int
    } else {
        source_height
    };
    Cmd::PushImage {
        texture: img,
        quad: image_quad(x, y, x + ww, y + hh, d.depth),
        uvs: UvRect {
            u1: Rational { num: sx as i64, den: img.base_width },
            v1: Rational { num: sy as i64, den: img.base_height },
            u2: Rational { num: (sx + sw) as i64, den: img.base_width },
            v2: Rational { num: (sy + sh) as i64, den: img.base_height },
        },
        state: resolved_state(d, None),
    }
}

/// `image_ext`: an unloaded texture is a silent no-op; otherwise switch
/// to the image mode and append the image command.
pub open spec fn spec_image_ext(
    d: DrawModel,
    img: Texture,
    x: int,
    y: int,
    width: int,
    height: int,
    source_x: int,
    source_y: int,
    source_width: int,
    source_height: int,
) -> DrawModel {
    if !img.loaded {
        d
    } else {
        let d2 = spec_set_mode(d, PaintMode::Image);
        DrawModel {
            log: d2.log.push(
                image_push_cmd(d, img, x, y, width, height, source_x, source_y, source_width, source_height),
            ),
            ..d2
        }
    }
}

/// `image_crop`: draw a source sub-rectangle at its own size.
pub open spec fn spec_image_crop(
    d: DrawModel,
    img: Texture,
    x: int,
    y: int,
    source_x: int,
    source_y: int,
    source_width: int,
    source_height: int,
) -> DrawModel {
    spec_image_ext(d, img, x, y, source_width, source_height, source_x, source_y, source_width, source_height)
}

/// `image_9slice_ext`: four fixed corners drawn by crop, four stretched
/// edges and a stretched center drawn by extended scaling, in a fixed
/// order, with center sizes `total - (near + far)`. A border draw whose
/// margins give it no extent is skipped — a corner needs both of its
/// margins, an edge its one — so with all margins zero only the center
/// remains, a single stretched image over the whole rectangle.
pub open spec fn spec_image_9slice_ext(
    d: DrawModel,
    img: Texture,
    x: int,
    y: int,
    width: int,
    height: int,
    left: int,
    right: int,
    top: int,
    bottom: int,
) -> DrawModel {
    let fw = img.frame.width as int;
    let fh = img.frame.height as int;
    let center_sw = fw - (left + right);
    let center_sh = fh - (top + bottom);
    let center_w = width - (left + right);
    let center_h = height - (top + bottom);
    let d1 = if left > 0 && top > 0 {
        spec_image_crop(d, img, x, y, 0, 0, left, top)
    } else {
        d
    };
    let d2 = if top > 0 {
        spec_image_ext(d1, img, x + left, y, center_w, top, left, 0, center_sw, top)
    } else {
        d1
    };
    let d3 = if right > 0 && top > 0 {
        spec_image_crop(d2, img, x + left + center_w, y, left + center_sw, 0, right, top)
    } else {
        d2
    };
    let d4 = if left > 0 {
        spec_image_ext(d3, img, x, y + top, left, center_h, 0, top, left, center_sh)
    } else {
        d3
    };
    let d5 = spec_image_ext(d4, img, x + left, y + top, center_w, center_h, left, top, center_sw, center_sh);
    let d6 = if right > 0 {
        spec_image_ext(
            d5,
            img,
            x + left + center_w,
            y + top,
            right,
            center_h,
            left + center_sw,
            top,
            right,
            center_sh,
        )
    } else {
        d5
    };
    let d7 = if left > 0 && bottom > 0 {
        spec_image_crop(d6, img, x, y + top + center_h, 0, top + center_sh, left, bottom)
    } else {
        d6
    };
    let d8 = if bottom > 0 {
        spec_image_ext(
            d7,
            img,
            x + left,
            y + top + center_h,
            center_w,
            bottom,
            left,
            top + center_sh,
            center_sw,
            bottom,
        )
    } else {
        d7
    };
    if right > 0 && bottom > 0 {
        spec_image_crop(
            d8,
            img,
            x + left + center_w,
            y + top + center_h,
            left + center_sw,
            top + center_sh,
            right,
            bottom,
        )
    } else {
        d8
    }
}

/// The tiling texture-space rectangle of a pattern draw. Tile counts are
/// the destination size over the frame size; the fractional offset wraps
/// within one frame; start coordinates add the whole tile count, so the
/// tiling is seamless as the offset animates.
pub open spec fn pattern_uvs(width: int, height: int, offset_x: int, offset_y: int, fw: int, fh: int) -> UvRect {
    let rx = spec_trunc_rem(offset_x, fw);
    let ry = spec_trunc_rem(offset_y, fh);
    let sx1 = spec_floor_div(width, fw) * fw + rx;
    let sy1 = spec_floor_div(height, fh) * fh + ry;
    UvRect {
        u1: Rational { num: sx1 as i64, den: fw as i64 },
        v1: Rational { num: sy1 as i64, den: fh as i64 },
        u2: Rational { num: rx as i64, den: fw as i64 },
        v2: Rational { num: ry as i64, den: fh as i64 },
    }
}

/// `pattern_ext`: the mode switches to pattern before the load check, so
/// an unloaded texture still flushes the previous batcher; the scale
/// arguments are carried by the interface but do not enter the tiling.
pub open spec fn spec_pattern_ext(
    d: DrawModel,
    img: Texture,
    x: int,
    y: int,
    width: int,
    height: int,
    offset_x: int,
    offset_y: int,
) -> DrawModel {
    let d2 = spec_set_mode(d, PaintMode::Pattern);
    if !img.loaded {
        d2
    } else {
        DrawModel {
            log: d2.log.push(Cmd::PushPattern {
                texture: img,
                quad: image_quad(x, y, x + width, y + height, d.depth),
                uvs: pattern_uvs(
                    width,
                    height,
                    offset_x,
                    offset_y,
                    img.frame.width as int,
                    img.frame.height as int,
                ),
                state: resolved_state(d, None),
            }),
            ..d2
        }
    }
}

/// The immediate-mode 2D drawing surface.
///
/// Callers set paint state, push transforms and issue draw calls; the
/// surface appends the resulting boundary actions to its command log,
/// which the renderer drains with [`Draw::take_commands`].
pub struct Draw {
    pub depth: i64,
    pub color: Color,
    pub alpha: u8,
    pub blend_mode: Option<BlendMode>,
    pub projection: Option<Mat4>,
    pub matrix: Option<Mat4>,
    width: i64,
    height: i64,
    clear_options: ClearOptions,
    matrix_stack: Vec<Mat4>,
    current_mode: PaintMode,
    commands: Vec<Command>,
}

impl View for Draw {
    type V = DrawModel;

    closed spec fn view(&self) -> DrawModel {
        DrawModel {
            depth: self.depth,
            color: self.color,
            alpha: self.alpha,
            blend_mode: self.blend_mode,
            projection: self.projection,
            matrix: self.matrix,
            width: self.width,
            height: self.height,
            clear_options: self.clear_options,
            stack: self.matrix_stack@,
            mode: self.current_mode,
            log: log_of(self.commands@),
        }
    }
}

fn active_projection_of(draw: &Draw) -> (p: Projection)
    ensures
        p == active_projection(draw@),
{
    match draw.projection {
        Some(m) => Projection::Custom { matrix: m },
        None => Projection::Ortho { width: draw.width, height: draw.height },
    }
}

fn resolved_state_of(draw: &Draw, color: Option<Color>) -> (s: PaintState)
    requires
        draw@.wf(),
    ensures
        s == resolved_state(draw@, color),
{
    let matrix = match draw.matrix {
        Some(m) => m,
        None => draw.matrix_stack[draw.matrix_stack.len() - 1],
    };
    PaintState {
        color: match color {
            Some(c) => c,
            None => draw.color,
        },
        alpha: draw.alpha,
        blend: draw.blend_mode,
        projection: active_projection_of(draw),
        matrix,
    }
}

/// Submit whatever the active batcher holds. Only the three batching
/// modes have a batcher; for the others this does nothing.
fn flush(draw: &mut Draw)
    requires
        old(draw)@.wf(),
    ensures
        final(draw)@ == spec_flush(old(draw)@),
        final(draw)@.wf(),
{
    match draw.current_mode {
        PaintMode::Color | PaintMode::Image | PaintMode::Pattern => {
            let projection = active_projection_of(draw);
            let mode = draw.current_mode;
            let ghost pre = draw.commands@;
            draw.commands.push(Command::Flush { mode, projection });
            proof {
                lemma_log_push(pre, Command::Flush { mode, projection });
            }
        },
        _ => {},
    }
}

/// The paint-mode state machine: a mode change flushes the previous
/// batcher before switching; the same mode twice batches together.
fn paint_mode(draw: &mut Draw, mode: PaintMode)
    requires
        old(draw)@.wf(),
    ensures
        final(draw)@ == spec_set_mode(old(draw)@, mode),
        final(draw)@.wf(),
{
    if draw.current_mode == mode {
        return ;
    }
    flush(draw);
    draw.current_mode = mode;
}

/// Append geometry on the color path under the resolved paint state.
fn draw_color(draw: &mut Draw, geometry: ColorGeometry, color: Option<Color>)
    requires
        old(draw)@.wf(),
    ensures
        final(draw)@ == spec_push_color(old(draw)@, geometry@, color),
        final(draw)@.wf(),
{
    let state = resolved_state_of(draw, color);
    let ghost pre = draw.commands@;
    let cmd = Command::PushColor { geometry, state };
    let ghost c = cmd;
    draw.commands.push(cmd);
    proof {
        lemma_log_push(pre, c);
    }
}

impl Draw {
    /// Builds a drawing surface over a viewport of the given size.
    pub fn new(width: i64, height: i64) -> (d: Draw)
        ensures
            d@ == spec_new(width, height),
            d@.wf(),
    {
        let mut matrix_stack: Vec<Mat4> = Vec::new();
        matrix_stack.push(Mat4::identity());
        let d = Draw {
            depth: 0,
            color: Color::white(),
            alpha: 255,
            blend_mode: Some(BlendMode::Normal),
            projection: None,
            matrix: None,
            width,
            height,
            clear_options: ClearOptions::none(),
            matrix_stack,
            current_mode: PaintMode::Idle,
            commands: Vec::new(),
        };
        proof {
            assert(d@.stack =~= seq![Mat4::spec_identity()]);
            assert(d@.log =~= Seq::<Cmd>::empty());
        }
        d
    }

    /// Resizes the viewport; the default orthographic projection follows
    /// the new size.
    pub fn set_size(&mut self, width: i64, height: i64)
        ensures
            final(self)@ == (DrawModel { width, height, ..old(self)@ }),
    {
        self.width = width;
        self.height = height;
    }

    /// The viewport size.
    pub fn size(&self) -> (s: (i64, i64))
        ensures
            s.0 == self@.width,
            s.1 == self@.height,
    {
        (self.width, self.height)
    }

    /// Multiplies the current transform by `matrix` and pushes the result.
    pub fn push(&mut self, matrix: &Mat4)
        requires
            old(self)@.wf(),
        ensures
            final(self)@ == spec_push(old(self)@, *matrix),
            final(self)@.wf(),
    {
        let top = self.transform();
        let new_matrix = top.mul(matrix);
        self.matrix_stack.push(new_matrix);
    }

    /// Pops the transform stack; a no-op when only the identity bottom is
    /// left.
    pub fn pop(&mut self)
        requires
            old(self)@.wf(),
        ensures
            final(self)@ == spec_pop(old(self)@),
            final(self)@.wf(),
    {
        if self.matrix_stack.len() <= 1 {
            return ;
        }
        self.matrix_stack.pop();
    }

    /// The current transform: the top of the stack.
    pub fn transform(&self) -> (m: Mat4)
        requires
            self@.wf(),
        ensures
            m == self@.stack.last(),
    {
        self.matrix_stack[self.matrix_stack.len() - 1]
    }

    /// Configures the frame clear color and asks the device to begin the
    /// frame.
    pub fn begin(&mut self, color: Color)
        requires
            old(self)@.wf(),
        ensures
            final(self)@ == spec_begin(old(self)@, color),
            final(self)@.wf(),
    {
        self.clear_options = ClearOptions { color: Some(color) };
        let clear = self.clear_options;
        let ghost pre = self.commands@;
        self.commands.push(Command::BeginFrame { clear });
        proof {
            lemma_log_push(pre, Command::BeginFrame { clear });
        }
    }

    /// Forces the paint mode off — flushing whatever was active — then
    /// asks the device to end the frame.
    pub fn end(&mut self)
        requires
            old(self)@.wf(),
        ensures
            final(self)@ == spec_end(old(self)@),
            final(self)@.wf(),
    {
        paint_mode(self, PaintMode::Idle);
        let ghost pre = self.commands@;
        self.commands.push(Command::EndFrame);
        proof {
            lemma_log_push(pre, Command::EndFrame);
        }
    }

    /// Hands the accumulated command log to the renderer and clears it.
    pub fn take_commands(&mut self) -> (cmds: Vec<Command>)
        ensures
            log_of(cmds@) == old(self)@.log,
            final(self)@ == (DrawModel { log: Seq::empty(), ..old(self)@ }),
    {
        let mut cmds: Vec<Command> = Vec::new();
        core::mem::swap(&mut cmds, &mut self.commands);
        proof {
            assert(log_of(self.commands@) =~= Seq::<Cmd>::empty());
        }
        cmds
    }
}

/// Append a textured quad on the image path under the resolved state.
fn draw_image(draw: &mut Draw, texture: Texture, quad: Quad, uvs: UvRect)
    requires
        old(draw)@.wf(),
    ensures
        final(draw)@ == (DrawModel {
            log: old(draw)@.log.push(
                Cmd::PushImage { texture, quad, uvs, state: resolved_state(old(draw)@, None) },
            ),
            ..old(draw)@
        }),
        final(draw)@.wf(),
{
    let state = resolved_state_of(draw, None);
    let ghost pre = draw.commands@;
    let cmd = Command::PushImage { texture, quad, uvs, state };
    let ghost c = cmd;
    draw.commands.push(cmd);
    proof {
        lemma_log_push(pre, c);
    }
}

/// Append a textured quad on the pattern path under the resolved state.
fn draw_pattern(draw: &mut Draw, texture: Texture, quad: Quad, uvs: UvRect)
    requires
        old(draw)@.wf(),
    ensures
        final(draw)@ == (DrawModel {
            log: old(draw)@.log.push(
                Cmd::PushPattern { texture, quad, uvs, state: resolved_state(old(draw)@, None) },
            ),
            ..old(draw)@
        }),
        final(draw)@.wf(),
{
    let state = resolved_state_of(draw, None);
    let ghost pre = draw.commands@;
    let cmd = Command::PushPattern { texture, quad, uvs, state };
    let ghost c = cmd;
    draw.commands.push(cmd);
    proof {
        lemma_log_push(pre, c);
    }
}

/// Computes the line offset vector; see [`spec_line_offset`].
fn line_offset(x1: i64, y1: i64, x2: i64, y2: i64, width: i64) -> (v: (i64, i64))
    requires
        in_coord(x1 as int),
        in_coord(y1 as int),
        in_coord(x2 as int),
        in_coord(y2 as int),
        in_coord(width as int),
    ensures
        (v.0 as int, v.1 as int) == spec_line_offset(x1, y1, x2, y2, width),
        -0x2000_0000_0000_0000 <= v.0 <= 0x2000_0000_0000_0000,
        -0x2000_0000_0000_0000 <= v.1 <= 0x2000_0000_0000_0000,
{
    if y1 == y2 {
        (0, -width)
    } else {
        let dx = x2 - x1;
        let dy = y2 - y1;
        let adx: i64 = if dx < 0 {
            -dx
        } else {
            dx
        };
        let ady: i64 = if dy < 0 {
            -dy
        } else {
            dy
        };
        proof {
            assert((adx as int) * (adx as int) == (dx as int) * (dx as int)) by (nonlinear_arith)
                requires
                    adx == if dx < 0 { -(dx as int) } else { dx as int },
            ;
            assert((ady as int) * (ady as int) == (dy as int) * (dy as int)) by (nonlinear_arith)
                requires
                    ady == if dy < 0 { -(dy as int) } else { dy as int },
            ;
            assert((adx as int) * (adx as int) <= 0x4000_0000_0000_0000) by (nonlinear_arith)
                requires
                    0 <= adx <= 0x8000_0000,
            ;
            assert((ady as int) * (ady as int) <= 0x4000_0000_0000_0000) by (nonlinear_arith)
                requires
                    0 <= ady <= 0x8000_0000,
            ;
        }
        let sq: u64 = (adx as u64) * (adx as u64) + (ady as u64) * (ady as u64);
        let len_u: u64 = isqrt(sq);
        if len_u == 0 {
            (dy, -dx)
        } else {
            proof {
                vstd::arithmetic::div_mod::lemma_remainder_lower(sq as int, 1);
                crate::num::lemma_isqrt_bounds(sq as nat);
                assert((len_u as int) * (len_u as int) <= sq);
                assert(len_u < 0x1_0000_0000_0000) by (nonlinear_arith)
                    requires
                        (len_u as int) * (len_u as int) <= sq,
                        sq <= 0x8000_0000_0000_0000,
                        len_u >= 1,
                ;
                assert(-0x2000_0000_0000_0000 <= (width as int) * (dy as int)
                    <= 0x2000_0000_0000_0000) by (nonlinear_arith)
                    requires
                        -0x4000_0000 <= width <= 0x4000_0000,
                        -0x8000_0000 <= dy <= 0x8000_0000,
                ;
                assert(-0x2000_0000_0000_0000 <= (width as int) * (dx as int)
                    <= 0x2000_0000_0000_0000) by (nonlinear_arith)
                    requires
                        -0x4000_0000 <= width <= 0x4000_0000,
                        -0x8000_0000 <= dx <= 0x8000_0000,
                ;
            }
            let len: i64 = len_u as i64;
            (floor_div(width * dy, len), floor_div(-(width * dx), len))
        }
    }
}

impl Draw {
    /// Draws a filled rectangle at the current depth.
    pub fn rect(&mut self, x: i64, y: i64, width: i64, height: i64)
        requires
            old(self)@.wf(),
            in_coord(x as int),
            in_coord(y as int),
            in_coord(width as int),
            in_coord(height as int),
        ensures
            final(self)@ == spec_rect(old(self)@, x, y, width, height),
            final(self)@.wf(),
    {
        paint_mode(self, PaintMode::Color);
        let x2 = x + width;
        let y2 = y + height;
        let depth = self.depth;
        let mut vertices: Vec<Vertex> = Vec::new();
        vertices.push(Vertex { x, y, z: depth });
        vertices.push(Vertex { x: x2, y, z: depth });
        vertices.push(Vertex { x, y: y2, z: depth });
        vertices.push(Vertex { x: x2, y: y2, z: depth });
        let mut indices: Vec<u32> = Vec::new();
        indices.push(0);
        indices.push(1);
        indices.push(2);
        indices.push(2);
        indices.push(1);
        indices.push(3);
        let geometry = ColorGeometry::Raw { vertices, indices };
        proof {
            assert(geometry@->Raw_vertices =~= rect_geom(
                x as int,
                y as int,
                width as int,
                height as int,
                depth,
            )->Raw_vertices);
            assert(geometry@->Raw_indices =~= rect_geom(
                x as int,
                y as int,
                width as int,
                height as int,
                depth,
            )->Raw_indices);
        }
        draw_color(self, geometry, None);
    }

    /// Draws a filled triangle at the current depth.
    pub fn triangle(&mut self, x1: i64, y1: i64, x2: i64, y2: i64, x3: i64, y3: i64)
        requires
            old(self)@.wf(),
        ensures
            final(self)@ == spec_triangle(old(self)@, x1, y1, x2, y2, x3, y3),
            final(self)@.wf(),
    {
        paint_mode(self, PaintMode::Color);
        let depth = self.depth;
        let mut vertices: Vec<Vertex> = Vec::new();
        vertices.push(Vertex { x: x1, y: y1, z: depth });
        vertices.push(Vertex { x: x2, y: y2, z: depth });
        vertices.push(Vertex { x: x3, y: y3, z: depth });
        let mut indices: Vec<u32> = Vec::new();
        indices.push(0);
        indices.push(1);
        indices.push(2);
        let geometry = ColorGeometry::Raw { vertices, indices };
        proof {
            assert(geometry@->Raw_vertices =~= triangle_geom(x1, y1, x2, y2, x3, y3, depth)->Raw_vertices);
            assert(geometry@->Raw_indices =~= triangle_geom(x1, y1, x2, y2, x3, y3, depth)->Raw_indices);
        }
        draw_color(self, geometry, None);
    }

    /// Draws a line of the given width, expanded into a quad along the
    /// perpendicular offset vector.
    pub fn line(&mut self, x1: i64, y1: i64, x2: i64, y2: i64, width: i64)
        requires
            old(self)@.wf(),
            in_coord(x1 as int),
            in_coord(y1 as int),
            in_coord(x2 as int),
            in_coord(y2 as int),
            in_coord(width as int),
        ensures
            final(self)@ == spec_line(old(self)@, x1, y1, x2, y2, width),
            final(self)@.wf(),
    {
        paint_mode(self, PaintMode::Color);
        let (vx, vy) = line_offset(x1, y1, x2, y2, width);
        let hx = floor_div(vx, 2);
        let hy = floor_div(vy, 2);
        let px1 = x1 + hx;
        let py1 = y1 + hy;
        let px2 = x2 + hx;
        let py2 = y2 + hy;
        let px3 = px1 - vx;
        let py3 = py1 - vy;
        let px4 = px2 - vx;
        let py4 = py2 - vy;
        let depth = self.depth;
        let mut vertices: Vec<Vertex> = Vec::new();
        vertices.push(Vertex { x: px1, y: py1, z: depth });
        vertices.push(Vertex { x: px2, y: py2, z: depth });
        vertices.push(Vertex { x: px3, y: py3, z: depth });
        vertices.push(Vertex { x: px3, y: py3, z: depth });
        vertices.push(Vertex { x: px2, y: py2, z: depth });
        vertices.push(Vertex { x: px4, y: py4, z: depth });
        let mut indices: Vec<u32> = Vec::new();
        indices.push(0);
        indices.push(1);
        indices.push(2);
        indices.push(3);
        indices.push(4);
        indices.push(5);
        let geometry = ColorGeometry::Raw { vertices, indices };
        proof {
            assert(geometry@->Raw_vertices =~= line_geom(x1, y1, x2, y2, width, depth)->Raw_vertices);
            assert(geometry@->Raw_indices =~= line_geom(x1, y1, x2, y2, width, depth)->Raw_indices);
        }
        draw_color(self, geometry, None);
    }

    /// Draws a filled circle; the tessellator produces its vertex list at
    /// the boundary.
    pub fn circle(&mut self, x: i64, y: i64, radius: i64)
        requires
            old(self)@.wf(),
        ensures
            final(self)@ == spec_shape(
                old(self)@,
                ShapePath::Circle { x, y, radius, depth: old(self)@.depth },
            ),
            final(self)@.wf(),
    {
        paint_mode(self, PaintMode::Color);
        let depth = self.depth;
        draw_color(self, ColorGeometry::Shape { path: ShapePath::Circle { x, y, radius, depth } }, None);
    }

    /// Draws a circle outline of the given line width.
    pub fn stroke_circle(&mut self, x: i64, y: i64, radius: i64, line_width: i64)
        requires
            old(self)@.wf(),
        ensures
            final(self)@ == spec_shape(
                old(self)@,
                ShapePath::StrokeCircle { x, y, radius, line_width, depth: old(self)@.depth },
            ),
            final(self)@.wf(),
    {
        paint_mode(self, PaintMode::Color);
        let depth = self.depth;
        draw_color(
            self,
            ColorGeometry::Shape { path: ShapePath::StrokeCircle { x, y, radius, line_width, depth } },
            None,
        );
    }

    /// Draws a filled rounded rectangle.
    pub fn rounded_rect(&mut self, x: i64, y: i64, width: i64, height: i64, corner_radius: i64)
        requires
            old(self)@.wf(),
        ensures
            final(self)@ == spec_shape(
                old(self)@,
                ShapePath::RoundedRect { x, y, width, height, corner_radius, depth: old(self)@.depth },
            ),
            final(self)@.wf(),
    {
        paint_mode(self, PaintMode::Color);
        let depth = self.depth;
        draw_color(
            self,
            ColorGeometry::Shape {
                path: ShapePath::RoundedRect { x, y, width, height, corner_radius, depth },
            },
            None,
        );
    }

    /// Draws a rounded-rectangle outline of the given line width.
    pub fn stroke_rounded_rect(
        &mut self,
        x: i64,
        y: i64,
        width: i64,
        height: i64,
        corner_radius: i64,
        line_width: i64,
    )
        requires
            old(self)@.wf(),
        ensures
            final(self)@ == spec_shape(
                old(self)@,
                ShapePath::StrokeRoundedRect {
                    x,
                    y,
                    width,
                    height,
                    line_width,
                    corner_radius,
                    depth: old(self)@.depth,
                },
            ),
            final(self)@.wf(),
    {
        paint_mode(self, PaintMode::Color);
        let depth = self.depth;
        draw_color(
            self,
            ColorGeometry::Shape {
                path: ShapePath::StrokeRoundedRect {
                    x,
                    y,
                    width,
                    height,
                    line_width,
                    corner_radius,
                    depth,
                },
            },
            None,
        );
    }

    /// Draws a triangle outline of the given line width.
    pub fn stroke_triangle(
        &mut self,
        x1: i64,
        y1: i64,
        x2: i64,
        y2: i64,
        x3: i64,
        y3: i64,
        line_width: i64,
    )
        requires
            old(self)@.wf(),
        ensures
            final(self)@ == spec_shape(
                old(self)@,
                ShapePath::StrokeTriangle { x1, y1, x2, y2, x3, y3, line_width, depth: old(self)@.depth },
            ),
            final(self)@.wf(),
    {
        paint_mode(self, PaintMode::Color);
        let depth = self.depth;
        draw_color(
            self,
            ColorGeometry::Shape {
                path: ShapePath::StrokeTriangle { x1, y1, x2, y2, x3, y3, line_width, depth },
            },
            None,
        );
    }

    /// Draws a rectangle outline of the given line width.
    pub fn stroke_rect(&mut self, x: i64, y: i64, width: i64, height: i64, line_width: i64)
        requires
            old(self)@.wf(),
        ensures
            final(self)@ == spec_shape(
                old(self)@,
                ShapePath::StrokeRect { x, y, width, height, line_width, depth: old(self)@.depth },
            ),
            final(self)@.wf(),
    {
        paint_mode(self, PaintMode::Color);
        let depth = self.depth;
        draw_color(
            self,
            ColorGeometry::Shape { path: ShapePath::StrokeRect { x, y, width, height, line_width, depth } },
            None,
        );
    }

    /// Draws caller-tessellated geometry: one color push per batch, in
    /// order, each with the batch's own color.
    pub fn geometry(&mut self, geometry: &Geometry)
        requires
            old(self)@.wf(),
        ensures
            final(self)@ == spec_geometry(old(self)@, geometry@),
            final(self)@.wf(),
    {
        paint_mode(self, PaintMode::Color);
        let ghost d0 = self@;
        let ghost gs = geometry@;
        let n = geometry.data.len();
        let mut i: usize = 0;
        while i < n
            invariant
                self@.wf(),
                n == geometry.data.len(),
                0 <= i <= n,
                gs == geometry@,
                spec_geometry_from(self@, gs, i as int) == spec_geometry_from(d0, gs, 0),
            decreases n - i,
        {
            let entry = &geometry.data[i];
            let vertices = vstd::slice::slice_to_vec(entry.vertices.as_slice());
            let indices = vstd::slice::slice_to_vec(entry.indices.as_slice());
            let color = entry.color;
            let geom = ColorGeometry::Raw { vertices, indices };
            proof {
                assert(geom@->Raw_vertices =~= gs[i as int].vertices);
                assert(geom@->Raw_indices =~= gs[i as int].indices);
            }
            draw_color(self, geom, Some(color));
            i = i + 1;
        }
        proof {
            assert(spec_geometry_from(self@, gs, n as int) == self@);
        }
    }

    /// Draws a texture at its frame size.
    pub fn image(&mut self, img: &Texture, x: i64, y: i64)
        requires
            old(self)@.wf(),
            img.wf(),
            in_coord(x as int),
            in_coord(y as int),
        ensures
            final(self)@ == spec_image_ext(
                old(self)@,
                *img,
                x as int,
                y as int,
                img.frame.width as int,
                img.frame.height as int,
                0,
                0,
                0,
                0,
            ),
            final(self)@.wf(),
    {
        let w = img.width();
        let h = img.height();
        self.image_ext(img, x, y, w, h, 0, 0, 0, 0);
    }

    /// Draws a source sub-rectangle of a texture at its own size.
    pub fn image_crop(
        &mut self,
        img: &Texture,
        x: i64,
        y: i64,
        source_x: i64,
        source_y: i64,
        source_width: i64,
        source_height: i64,
    )
        requires
            old(self)@.wf(),
            img.wf(),
            in_coord_wide(x as int),
            in_coord_wide(y as int),
            in_coord_wide(source_x as int),
            in_coord_wide(source_y as int),
            in_coord_wide(source_width as int),
            in_coord_wide(source_height as int),
        ensures
            final(self)@ == spec_image_crop(
                old(self)@,
                *img,
                x as int,
                y as int,
                source_x as int,
                source_y as int,
                source_width as int,
                source_height as int,
            ),
            final(self)@.wf(),
    {
        self.image_ext(img, x, y, source_width, source_height, source_x, source_y, source_width, source_height);
    }

    /// Draws a texture with explicit destination size and source
    /// rectangle. A zero width, height, source width or source height
    /// means "the frame's own dimension"; an unloaded texture is a
    /// silent no-op.
    pub fn image_ext(
        &mut self,
        img: &Texture,
        x: i64,
        y: i64,
        width: i64,
        height: i64,
        source_x: i64,
        source_y: i64,
        source_width: i64,
        source_height: i64,
    )
        requires
            old(self)@.wf(),
            img.wf(),
            in_coord_wide(x as int),
            in_coord_wide(y as int),
            in_coord_wide(width as int),
            in_coord_wide(height as int),
            in_coord_wide(source_x as int),
            in_coord_wide(source_y as int),
            in_coord_wide(source_width as int),
            in_coord_wide(source_height as int),
        ensures
            final(self)@ == spec_image_ext(
                old(self)@,
                *img,
                x as int,
                y as int,
                width as int,
                height as int,
                source_x as int,
                source_y as int,
                source_width as int,
                source_height as int,
            ),
            final(self)@.wf(),
    {
        if !img.is_loaded() {
            return ;
        }
        let frame = img.frame;
        let ww = if width == 0 {
            frame.width
        } else {
            width
        };
        let hh = if height == 0 {
            frame.height
        } else {
            height
        };
        let x2 = x + ww;
        let y2 = y + hh;
        let sx = frame.x + source_x;
        let sy = frame.y + source_y;
        let sw = if source_width == 0 {
            frame.width
        } else {
            source_width
        };
        let sh = if source_height == 0 {
            frame.height
        } else {
            source_height
        };
        paint_mode(self, PaintMode::Image);
        let depth = self.depth;
        let quad = Quad {
            tl: Vertex { x, y, z: depth },
            tr: Vertex { x: x2, y, z: depth },
            bl: Vertex { x, y: y2, z: depth },
            br: Vertex { x: x2, y: y2, z: depth },
        };
        let uvs = UvRect {
            u1: Rational { num: sx, den: img.base_width },
            v1: Rational { num: sy, den: img.base_height },
            u2: Rational { num: sx + sw, den: img.base_width },
            v2: Rational { num: sy + sh, den: img.base_height },
        };
        draw_image(self, *img, quad, uvs);
    }

    /// Draws a 9-slice with all four margins one third of the frame.
    pub fn image_9slice(&mut self, img: &Texture, x: i64, y: i64, width: i64, height: i64)
        requires
            old(self)@.wf(),
            img.wf(),
            in_coord(x as int),
            in_coord(y as int),
            in_coord(width as int),
            in_coord(height as int),
        ensures
            final(self)@ == spec_image_9slice_ext(
                old(self)@,
                *img,
                x as int,
                y as int,
                width as int,
                height as int,
                (img.frame.width as int) / 3,
                (img.frame.width as int) / 3,
                (img.frame.height as int) / 3,
                (img.frame.height as int) / 3,
            ),
            final(self)@.wf(),
    {
        let ww: i64 = ((img.frame.width as u64) / 3) as i64;
        let hh: i64 = ((img.frame.height as u64) / 3) as i64;
        self.image_9slice_ext(img, x, y, width, height, ww, ww, hh, hh);
    }

    /// Draws a scalable-border composition: four fixed corners, four
    /// stretched edges and a stretched center, so that borders keep
    /// their size and only interior content stretches. Border draws
    /// whose margins give them no extent are skipped; with all margins
    /// zero the call degenerates to one stretched image over the whole
    /// rectangle.
    pub fn image_9slice_ext(
        &mut self,
        img: &Texture,
        x: i64,
        y: i64,
        width: i64,
        height: i64,
        left: i64,
        right: i64,
        top: i64,
        bottom: i64,
    )
        requires
            old(self)@.wf(),
            img.wf(),
            in_coord(x as int),
            in_coord(y as int),
            in_coord(width as int),
            in_coord(height as int),
            in_coord(left as int),
            in_coord(right as int),
            in_coord(top as int),
            in_coord(bottom as int),
        ensures
            final(self)@ == spec_image_9slice_ext(
                old(self)@,
                *img,
                x as int,
                y as int,
                width as int,
                height as int,
                left as int,
                right as int,
                top as int,
                bottom as int,
            ),
            final(self)@.wf(),
    {
        let center_sw = img.width() - (left + right);
        let center_sh = img.height() - (top + bottom);
        let center_w = width - (left + right);
        let center_h = height - (top + bottom);

        if left > 0 && top > 0 {
            self.image_crop(img, x, y, 0, 0, left, top);
        }
        if top > 0 {
            self.image_ext(img, x + left, y, center_w, top, left, 0, center_sw, top);
        }
        if right > 0 && top > 0 {
            self.image_crop(img, x + left + center_w, y, left + center_sw, 0, right, top);
        }

        if left > 0 {
            self.image_ext(img, x, y + top, left, center_h, 0, top, left, center_sh);
        }
        self.image_ext(img, x + left, y + top, center_w, center_h, left, top, center_sw, center_sh);
        if right > 0 {
            self.image_ext(
                img,
                x + left + center_w,
                y + top,
                right,
                center_h,
                left + center_sw,
                top,
                right,
                center_sh,
            );
        }

        if left > 0 && bottom > 0 {
            self.image_crop(img, x, y + top + center_h, 0, top + center_sh, left, bottom);
        }
        if bottom > 0 {
            self.image_ext(
                img,
                x + left,
                y + top + center_h,
                center_w,
                bottom,
                left,
                top + center_sh,
                center_sw,
                bottom,
            );
        }
        if right > 0 && bottom > 0 {
            self.image_crop(
                img,
                x + left + center_w,
                y + top + center_h,
                left + center_sw,
                top + center_sh,
                right,
                bottom,
            );
        }
    }

    /// Tiles a texture across a destination rectangle with the given
    /// tiling offset.
    pub fn pattern(
        &mut self,
        img: &Texture,
        x: i64,
        y: i64,
        width: i64,
        height: i64,
        offset_x: i64,
        offset_y: i64,
    )
        requires
            old(self)@.wf(),
            img.wf(),
            in_coord(x as int),
            in_coord(y as int),
            in_coord(width as int),
            in_coord(height as int),
            in_coord(offset_x as int),
            in_coord(offset_y as int),
        ensures
            final(self)@ == spec_pattern_ext(
                old(self)@,
                *img,
                x as int,
                y as int,
                width as int,
                height as int,
                offset_x as int,
                offset_y as int,
            ),
            final(self)@.wf(),
    {
        self.pattern_ext(img, x, y, width, height, offset_x, offset_y, 1, 1);
    }

    /// Tiles a texture across a destination rectangle. The scale
    /// arguments are carried by the interface but do not enter the
    /// tiling; the paint mode switches before the load check, so an
    /// unloaded texture still flushes the previous batcher.
    pub fn pattern_ext(
        &mut self,
        img: &Texture,
        x: i64,
        y: i64,
        width: i64,
        height: i64,
        offset_x: i64,
        offset_y: i64,
        scale_x: i64,
        scale_y: i64,
    )
        requires
            old(self)@.wf(),
            img.wf(),
            in_coord(x as int),
            in_coord(y as int),
            in_coord(width as int),
            in_coord(height as int),
            in_coord(offset_x as int),
            in_coord(offset_y as int),
        ensures
            final(self)@ == spec_pattern_ext(
                old(self)@,
                *img,
                x as int,
                y as int,
                width as int,
                height as int,
                offset_x as int,
                offset_y as int,
            ),
            final(self)@.wf(),
    {
        let _ = scale_x;
        let _ = scale_y;
        paint_mode(self, PaintMode::Pattern);
        if !img.is_loaded() {
            return ;
        }
        let frame = img.frame;
        let x2 = x + width;
        let y2 = y + height;
        let qx = floor_div(width, frame.width);
        let qy = floor_div(height, frame.height);
        let rx = trunc_rem(offset_x, frame.width);
        let ry = trunc_rem(offset_y, frame.height);
        proof {
            assert(-0x1000_0000_0000_0000 <= (qx as int) * (frame.width as int)
                <= 0x1000_0000_0000_0000) by (nonlinear_arith)
                requires
                    -0x4000_0000 <= qx <= 0x4000_0000,
                    0 < frame.width <= 0x4000_0000,
            ;
            assert(-0x1000_0000_0000_0000 <= (qy as int) * (frame.height as int)
                <= 0x1000_0000_0000_0000) by (nonlinear_arith)
                requires
                    -0x4000_0000 <= qy <= 0x4000_0000,
                    0 < frame.height <= 0x4000_0000,
            ;
        }
        let sx1 = qx * frame.width + rx;
        let sy1 = qy * frame.height + ry;
        paint_mode(self, PaintMode::Pattern);
        let depth = self.depth;
        let quad = Quad {
            tl: Vertex { x, y, z: depth },
            tr: Vertex { x: x2, y, z: depth },
            bl: Vertex { x, y: y2, z: depth },
            br: Vertex { x: x2, y: y2, z: depth },
        };
        let uvs = UvRect {
            u1: Rational { num: sx1, den: frame.width },
            v1: Rational { num: sy1, den: frame.height },
            u2: Rational { num: rx, den: frame.width },
            v2: Rational { num: ry, den: frame.height },
        };
        draw_pattern(self, *img, quad, uvs);
    }
}

} // verus!
