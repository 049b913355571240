use draw_core::color::{BlendMode, Color};
use draw_core::command::{Geometry, GeometryData};
use draw_core::command::{ColorGeometry, Command, PaintMode, Projection, ShapePath, Vertex};
use draw_core::draw::Draw;
use draw_core::mat::Mat4;
use draw_core::texture::Texture;

fn flush_count(cmds: &[Command]) -> usize {
    cmds.iter()
        .filter(|c| matches!(c, Command::Flush { .. }))
        .count()
}

fn white() -> Color {
    Color { r: 255, g: 255, b: 255, a: 255 }
}

#[test]
fn new_surface_defaults() {
    let mut d = Draw::new(800, 600);
    assert_eq!(d.size(), (800, 600));
    assert_eq!(d.transform(), Mat4::identity());
    assert_eq!(d.depth, 0);
    assert_eq!(d.color, white());
    assert_eq!(d.alpha, 255);
    assert_eq!(d.blend_mode, Some(BlendMode::Normal));
    assert!(d.take_commands().is_empty());
}

#[test]
fn rect_emits_one_quad() {
    let mut d = Draw::new(100, 100);
    d.rect(10, 20, 30, 40);
    let cmds = d.take_commands();
    assert_eq!(cmds.len(), 1);
    match &cmds[0] {
        Command::PushColor { geometry, state } => {
            match geometry {
                ColorGeometry::Raw { vertices, indices } => {
                    let expect = [
                        Vertex { x: 10, y: 20, z: 0 },
                        Vertex { x: 40, y: 20, z: 0 },
                        Vertex { x: 10, y: 60, z: 0 },
                        Vertex { x: 40, y: 60, z: 0 },
                    ];
                    assert_eq!(vertices.as_slice(), &expect);
                    assert_eq!(indices.as_slice(), &[0, 1, 2, 2, 1, 3]);
                }
                _ => panic!("rect should emit raw geometry"),
            }
            assert_eq!(state.color, white());
            assert_eq!(state.projection, Projection::Ortho { width: 100, height: 100 });
            assert_eq!(state.matrix, Mat4::identity());
        }
        _ => panic!("rect should push color geometry"),
    }
}

#[test]
fn same_mode_calls_batch_with_one_flush_at_change() {
    let mut d = Draw::new(64, 64);
    let img = Texture::new(1, true, 32, 32);
    d.rect(0, 0, 1, 1);
    d.rect(1, 1, 1, 1);
    d.triangle(0, 0, 1, 0, 0, 1);
    let mid = d.take_commands();
    // three color pushes batch together: no flush between them
    assert_eq!(flush_count(&mid), 0);
    assert_eq!(mid.len(), 3);

    d.image(&img, 0, 0);
    d.image(&img, 8, 8);
    d.end();
    let cmds = d.take_commands();
    // exactly one flush at the color->image change, one at end()
    assert_eq!(flush_count(&cmds), 2);
    assert!(matches!(cmds[0], Command::Flush { mode: PaintMode::Color, .. }));
    assert!(matches!(cmds[1], Command::PushImage { .. }));
    assert!(matches!(cmds[2], Command::PushImage { .. }));
    assert!(matches!(cmds[3], Command::Flush { mode: PaintMode::Image, .. }));
    assert!(matches!(cmds[4], Command::EndFrame));
}

#[test]
fn unloaded_image_is_silent_noop() {
    let mut d = Draw::new(64, 64);
    let img = Texture::new(1, false, 32, 32);
    d.image(&img, 0, 0);
    assert!(d.take_commands().is_empty());
    // the mode did not switch either: a following rect flushes nothing
    d.rect(0, 0, 1, 1);
    let cmds = d.take_commands();
    assert_eq!(flush_count(&cmds), 0);
    assert_eq!(cmds.len(), 1);
}

#[test]
fn unloaded_pattern_still_switches_mode() {
    let mut d = Draw::new(64, 64);
    let img = Texture::new(1, false, 32, 32);
    d.rect(0, 0, 1, 1);
    d.pattern(&img, 0, 0, 8, 8, 0, 0);
    let cmds = d.take_commands();
    // the pattern call flushes the color batcher before its load check
    assert_eq!(cmds.len(), 2);
    assert!(matches!(cmds[0], Command::PushColor { .. }));
    assert!(matches!(cmds[1], Command::Flush { mode: PaintMode::Color, .. }));
}

#[test]
fn push_pop_balances_to_identity() {
    let mut d = Draw::new(64, 64);
    let mut m = Mat4::identity();
    m.m03 = 17;
    m.m13 = -4;
    d.push(&m);
    assert_eq!(d.transform(), m);
    d.pop();
    assert_eq!(d.transform(), Mat4::identity());
    // popping the identity bottom is a no-op
    d.pop();
    d.pop();
    assert_eq!(d.transform(), Mat4::identity());
}

#[test]
fn matrix_multiplication_composes_translations() {
    let mut a = Mat4::identity();
    a.m03 = 5;
    let mut b = Mat4::identity();
    b.m03 = 7;
    let c = a.mul(&b);
    let mut expect = Mat4::identity();
    expect.m03 = 12;
    assert_eq!(c, expect);
}

#[test]
fn image_zero_size_uses_frame_dimensions() {
    let mut d = Draw::new(256, 256);
    let img = Texture::new(3, true, 64, 32);
    d.image_ext(&img, 5, 6, 0, 0, 0, 0, 0, 0);
    let cmds = d.take_commands();
    assert_eq!(cmds.len(), 1);
    match &cmds[0] {
        Command::PushImage { quad, uvs, .. } => {
            assert_eq!(quad.tl, Vertex { x: 5, y: 6, z: 0 });
            assert_eq!(quad.tr, Vertex { x: 69, y: 6, z: 0 });
            assert_eq!(quad.bl, Vertex { x: 5, y: 38, z: 0 });
            assert_eq!(quad.br, Vertex { x: 69, y: 38, z: 0 });
            assert_eq!((uvs.u1.num, uvs.u1.den), (0, 64));
            assert_eq!((uvs.v1.num, uvs.v1.den), (0, 32));
            assert_eq!((uvs.u2.num, uvs.u2.den), (64, 64));
            assert_eq!((uvs.v2.num, uvs.v2.den), (32, 32));
        }
        _ => panic!("image_ext should push an image quad"),
    }
}

#[test]
fn nine_slice_zero_margins_degenerates_to_direct_draw() {
    let img = Texture::new(4, true, 48, 24);

    // with all margins zero the border draws have no extent and are
    // skipped: a single stretched image remains
    let mut sliced = Draw::new(256, 256);
    sliced.image_9slice_ext(&img, 10, 20, 96, 48, 0, 0, 0, 0);
    let degenerate = sliced.take_commands();
    assert_eq!(degenerate.len(), 1);

    let mut direct = Draw::new(256, 256);
    direct.image_ext(&img, 10, 20, 96, 48, 0, 0, 0, 0);
    let one = direct.take_commands();
    assert_eq!(one.len(), 1);

    match (&degenerate[0], &one[0]) {
        (
            Command::PushImage { texture: t1, quad: q1, uvs: u1, state: s1 },
            Command::PushImage { texture: t2, quad: q2, uvs: u2, state: s2 },
        ) => {
            assert_eq!(t1, t2);
            assert_eq!(q1, q2);
            assert_eq!(u1, u2);
            assert_eq!(s1, s2);
        }
        _ => panic!("both draws should push image quads"),
    }
}

#[test]
fn nine_slice_with_margins_draws_all_nine_regions() {
    let img = Texture::new(4, true, 48, 24);
    let mut d = Draw::new(256, 256);
    d.image_9slice_ext(&img, 10, 20, 96, 48, 8, 8, 4, 4);
    let cmds = d.take_commands();
    assert_eq!(cmds.len(), 9);
    assert!(cmds.iter().all(|c| matches!(c, Command::PushImage { .. })));
    // the top-left corner keeps its source size: an 8 x 4 quad at the origin
    match &cmds[0] {
        Command::PushImage { quad, uvs, .. } => {
            assert_eq!(quad.tl, Vertex { x: 10, y: 20, z: 0 });
            assert_eq!(quad.br, Vertex { x: 18, y: 24, z: 0 });
            assert_eq!((uvs.u1.num, uvs.u2.num), (0, 8));
            assert_eq!((uvs.v1.num, uvs.v2.num), (0, 4));
        }
        _ => panic!("corners are image quads"),
    }
    // the center stretches: dest 80 x 40 at (18, 24), source 32 x 16 at (8, 4)
    match &cmds[4] {
        Command::PushImage { quad, uvs, .. } => {
            assert_eq!(quad.tl, Vertex { x: 18, y: 24, z: 0 });
            assert_eq!(quad.br, Vertex { x: 98, y: 64, z: 0 });
            assert_eq!((uvs.u1.num, uvs.u2.num), (8, 40));
            assert_eq!((uvs.v1.num, uvs.v2.num), (4, 20));
        }
        _ => panic!("the center is an image quad"),
    }
}

#[test]
fn pattern_offset_of_full_frame_tiles_like_zero() {
    let img = Texture::new(5, true, 16, 16);

    let mut a = Draw::new(64, 64);
    a.pattern_ext(&img, 0, 0, 40, 40, 16, 0, 1, 1);
    let ca = a.take_commands();

    let mut b = Draw::new(64, 64);
    b.pattern_ext(&img, 0, 0, 40, 40, 0, 0, 1, 1);
    let cb = b.take_commands();

    match (&ca[0], &cb[0]) {
        (Command::PushPattern { uvs: u1, .. }, Command::PushPattern { uvs: u2, .. }) => {
            assert_eq!(u1, u2);
        }
        _ => panic!("pattern should push a pattern quad"),
    }
}

#[test]
fn pattern_uvs_hold_tile_counts_and_wrap() {
    let img = Texture::new(5, true, 16, 16);
    let mut d = Draw::new(64, 64);
    d.pattern_ext(&img, 0, 0, 40, 24, 4, 0, 1, 1);
    let cmds = d.take_commands();
    match &cmds[0] {
        Command::PushPattern { quad, uvs, .. } => {
            assert_eq!(quad.tl, Vertex { x: 0, y: 0, z: 0 });
            assert_eq!(quad.br, Vertex { x: 40, y: 24, z: 0 });
            // 40/16 floors to 2 tiles, wrapped offset 4/16
            assert_eq!((uvs.u1.num, uvs.u1.den), (2 * 16 + 4, 16));
            assert_eq!((uvs.u2.num, uvs.u2.den), (4, 16));
            assert_eq!((uvs.v1.num, uvs.v1.den), (16, 16));
            assert_eq!((uvs.v2.num, uvs.v2.den), (0, 16));
        }
        _ => panic!("pattern should push a pattern quad"),
    }
}

#[test]
fn horizontal_line_expands_vertically() {
    let mut d = Draw::new(64, 64);
    d.line(0, 0, 10, 0, 4);
    let cmds = d.take_commands();
    match &cmds[0] {
        Command::PushColor { geometry: ColorGeometry::Raw { vertices, indices }, .. } => {
            // offset is (0, -width); half applied one way, whole subtracted back
            let expect = [
                Vertex { x: 0, y: -2, z: 0 },
                Vertex { x: 10, y: -2, z: 0 },
                Vertex { x: 0, y: 2, z: 0 },
                Vertex { x: 0, y: 2, z: 0 },
                Vertex { x: 10, y: -2, z: 0 },
                Vertex { x: 10, y: 2, z: 0 },
            ];
            assert_eq!(vertices.as_slice(), &expect);
            assert_eq!(indices.as_slice(), &[0, 1, 2, 3, 4, 5]);
        }
        _ => panic!("line should emit raw geometry"),
    }
}

#[test]
fn diagonal_line_normalizes_by_integer_square_root() {
    let mut d = Draw::new(64, 64);
    // 3-4-5 triangle: the offset vector is exact
    d.line(0, 0, 3, 4, 5);
    let cmds = d.take_commands();
    match &cmds[0] {
        Command::PushColor { geometry: ColorGeometry::Raw { vertices, .. }, .. } => {
            // offset (5*4/5, -(5*3)/5) = (4, -3); halves (2, -2)
            assert_eq!(vertices[0], Vertex { x: 2, y: -2, z: 0 });
            assert_eq!(vertices[1], Vertex { x: 5, y: 2, z: 0 });
            assert_eq!(vertices[2], Vertex { x: -2, y: 1, z: 0 });
            assert_eq!(vertices[5], Vertex { x: 1, y: 5, z: 0 });
        }
        _ => panic!("line should emit raw geometry"),
    }
}

#[test]
fn shapes_delegate_to_the_tessellator() {
    let mut d = Draw::new(64, 64);
    d.depth = 3;
    d.circle(1, 2, 9);
    d.stroke_rect(4, 5, 6, 7, 2);
    let cmds = d.take_commands();
    assert_eq!(cmds.len(), 2);
    match &cmds[0] {
        Command::PushColor { geometry: ColorGeometry::Shape { path }, .. } => {
            assert_eq!(*path, ShapePath::Circle { x: 1, y: 2, radius: 9, depth: 3 });
        }
        _ => panic!("circle should be a tessellator shape"),
    }
    match &cmds[1] {
        Command::PushColor { geometry: ColorGeometry::Shape { path }, .. } => {
            assert_eq!(
                *path,
                ShapePath::StrokeRect { x: 4, y: 5, width: 6, height: 7, line_width: 2, depth: 3 },
            );
        }
        _ => panic!("stroke_rect should be a tessellator shape"),
    }
}

#[test]
fn geometry_pushes_each_batch_with_its_color() {
    let red = Color { r: 255, g: 0, b: 0, a: 255 };
    let blue = Color { r: 0, g: 0, b: 255, a: 255 };
    let g = Geometry {
        data: vec![
            GeometryData {
                vertices: vec![Vertex { x: 0, y: 0, z: 0 }],
                indices: vec![0],
                color: red,
            },
            GeometryData {
                vertices: vec![Vertex { x: 1, y: 1, z: 0 }],
                indices: vec![0],
                color: blue,
            },
        ],
    };
    let mut d = Draw::new(64, 64);
    d.geometry(&g);
    let cmds = d.take_commands();
    assert_eq!(cmds.len(), 2);
    match &cmds[0] {
        Command::PushColor { state, .. } => assert_eq!(state.color, red),
        _ => panic!("geometry should push color data"),
    }
    match &cmds[1] {
        Command::PushColor { state, .. } => assert_eq!(state.color, blue),
        _ => panic!("geometry should push color data"),
    }
}

#[test]
fn begin_records_clear_color_and_paint_state_resolves() {
    let mut d = Draw::new(320, 200);
    let clear = Color { r: 1, g: 2, b: 3, a: 255 };
    d.begin(clear);
    d.color = Color { r: 9, g: 8, b: 7, a: 255 };
    d.alpha = 128;
    d.blend_mode = Some(BlendMode::Add);
    d.depth = 2;
    d.rect(0, 0, 4, 4);
    d.end();
    let cmds = d.take_commands();
    match &cmds[0] {
        Command::BeginFrame { clear: c } => assert_eq!(c.color, Some(clear)),
        _ => panic!("begin should record a frame begin"),
    }
    match &cmds[1] {
        Command::PushColor { state, .. } => {
            assert_eq!(state.color, Color { r: 9, g: 8, b: 7, a: 255 });
            assert_eq!(state.alpha, 128);
            assert_eq!(state.blend, Some(BlendMode::Add));
        }
        _ => panic!("rect should push color data"),
    }
    match &cmds[2] {
        Command::Flush { mode, projection } => {
            assert_eq!(*mode, PaintMode::Color);
            assert_eq!(*projection, Projection::Ortho { width: 320, height: 200 });
        }
        _ => panic!("end should flush the color batcher"),
    }
    assert!(matches!(cmds[3], Command::EndFrame));
}

#[test]
fn set_size_and_projection_override() {
    let mut d = Draw::new(100, 100);
    d.set_size(800, 600);
    assert_eq!(d.size(), (800, 600));
    d.rect(0, 0, 1, 1);
    d.end();
    let cmds = d.take_commands();
    match &cmds[1] {
        Command::Flush { projection, .. } => {
            assert_eq!(*projection, Projection::Ortho { width: 800, height: 600 });
        }
        _ => panic!("end should flush"),
    }

    let mut m = Mat4::identity();
    m.m00 = 2;
    d.projection = Some(m);
    d.rect(0, 0, 1, 1);
    d.end();
    let cmds = d.take_commands();
    match &cmds[1] {
        Command::Flush { projection, .. } => assert_eq!(*projection, Projection::Custom { matrix: m }),
        _ => panic!("end should flush"),
    }
}

#[test]
fn image_crop_takes_source_rectangle() {
    let img = Texture::with_frame(
        7,
        true,
        128,
        128,
        draw_core::texture::Frame { x: 32, y: 16, width: 64, height: 48 },
    );
    let mut d = Draw::new(256, 256);
    d.image_crop(&img, 1, 2, 8, 4, 20, 10);
    let cmds = d.take_commands();
    match &cmds[0] {
        Command::PushImage { quad, uvs, .. } => {
            assert_eq!(quad.tl, Vertex { x: 1, y: 2, z: 0 });
            assert_eq!(quad.br, Vertex { x: 21, y: 12, z: 0 });
            assert_eq!((uvs.u1.num, uvs.u1.den), (40, 128));
            assert_eq!((uvs.v1.num, uvs.v1.den), (20, 128));
            assert_eq!((uvs.u2.num, uvs.u2.den), (60, 128));
            assert_eq!((uvs.v2.num, uvs.v2.den), (30, 128));
        }
        _ => panic!("image_crop should push an image quad"),
    }
}
