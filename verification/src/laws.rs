//! The drawing surface's guarantees, stated and proved over the model
//! transitions: where flushes fall, how the transform stack balances, and
//! how the image and pattern coordinate math degenerates.

use vstd::prelude::*;
use vstd::arithmetic::div_mod::lemma_mod_multiples_vanish;

use crate::command::{Cmd, PaintMode, flush_count, mode_flushes};
use crate::draw::{
    DrawModel, active_projection, image_push_cmd, image_quad, pattern_uvs, spec_end,
    spec_image_9slice_ext, spec_image_ext, spec_pattern_ext, spec_pop, spec_push, spec_rect,
    spec_set_mode,
};
use crate::mat::Mat4;
use crate::num::spec_trunc_rem;
use crate::texture::Texture;

verus! {

/// A pushed command adds one flush to the count exactly when it is a
/// flush.
proof fn lemma_flush_count_push(log: Seq<Cmd>, c: Cmd)
    ensures
        flush_count(log.push(c)) == flush_count(log) + (if c is Flush {
            1int
        } else {
            0int
        }),
{
    assert(log.push(c).drop_last() =~= log);
    assert(log.push(c).last() == c);
}

/// Requesting the mode already active changes nothing: two consecutive
/// calls of the same paint mode batch together with no flush between
/// them.
pub proof fn lemma_same_mode_batches(d: DrawModel, mode: PaintMode)
    requires
        d.mode == mode,
    ensures
        spec_set_mode(d, mode) == d,
{
}

/// A change of paint mode emits exactly one flush — of the previous
/// batcher, under the projection active at the switch — when the
/// previous mode had a batcher, and none otherwise.
pub proof fn lemma_mode_change_flushes_once(d: DrawModel, mode: PaintMode)
    requires
        d.mode != mode,
    ensures
        mode_flushes(d.mode) ==> spec_set_mode(d, mode).log == d.log.push(
            Cmd::Flush { mode: d.mode, projection: active_projection(d) },
        ),
        !mode_flushes(d.mode) ==> spec_set_mode(d, mode).log == d.log,
        spec_set_mode(d, mode).mode == mode,
{
}

/// How any mode request moves the flush count: up by one exactly at a
/// change away from a batching mode.
pub proof fn lemma_set_mode_flush_count(d: DrawModel, mode: PaintMode)
    ensures
        flush_count(spec_set_mode(d, mode).log) == flush_count(d.log) + (if d.mode != mode
            && mode_flushes(d.mode) {
            1int
        } else {
            0int
        }),
{
    if d.mode != mode && mode_flushes(d.mode) {
        lemma_flush_count_push(d.log, Cmd::Flush { mode: d.mode, projection: active_projection(d) });
    }
}

/// A shape call flushes exactly once when it changes the mode away from
/// a batching mode, and never between calls already in the color mode.
pub proof fn lemma_rect_flush_count(d: DrawModel, x: i64, y: i64, width: i64, height: i64)
    ensures
        flush_count(spec_rect(d, x, y, width, height).log) == flush_count(d.log) + (if d.mode
            != PaintMode::Color && mode_flushes(d.mode) {
            1int
        } else {
            0int
        }),
{
    lemma_set_mode_flush_count(d, PaintMode::Color);
    let d2 = spec_set_mode(d, PaintMode::Color);
    lemma_flush_count_push(
        d2.log,
        spec_rect(d, x, y, width, height).log.last(),
    );
    assert(spec_rect(d, x, y, width, height).log == d2.log.push(
        spec_rect(d, x, y, width, height).log.last(),
    )) by {
        assert(spec_rect(d, x, y, width, height).log.drop_last() =~= d2.log);
        assert(spec_rect(d, x, y, width, height).log =~= d2.log.push(
            spec_rect(d, x, y, width, height).log.last(),
        ));
    }
}

/// An image call on a loaded texture flushes exactly once when it
/// changes the mode away from a batching mode, never between image
/// calls; on an unloaded texture it emits nothing at all.
pub proof fn lemma_image_ext_flush_count(
    d: DrawModel,
    img: Texture,
    x: int,
    y: int,
    width: int,
    height: int,
    source_x: int,
    source_y: int,
    source_width: int,
    source_height: int,
)
    ensures
        img.loaded ==> flush_count(
            spec_image_ext(d, img, x, y, width, height, source_x, source_y, source_width, source_height).log,
        ) == flush_count(d.log) + (if d.mode != PaintMode::Image && mode_flushes(d.mode) {
            1int
        } else {
            0int
        }),
        !img.loaded ==> spec_image_ext(
            d,
            img,
            x,
            y,
            width,
            height,
            source_x,
            source_y,
            source_width,
            source_height,
        ) == d,
{
    if img.loaded {
        lemma_set_mode_flush_count(d, PaintMode::Image);
        let d2 = spec_set_mode(d, PaintMode::Image);
        lemma_flush_count_push(
            d2.log,
            image_push_cmd(d, img, x, y, width, height, source_x, source_y, source_width, source_height),
        );
    }
}

/// A pattern call flushes exactly once when it changes the mode away
/// from a batching mode — even when the texture turns out unloaded,
/// since the mode switches before the load check — and never between
/// pattern calls.
pub proof fn lemma_pattern_ext_flush_count(
    d: DrawModel,
    img: Texture,
    x: int,
    y: int,
    width: int,
    height: int,
    offset_x: int,
    offset_y: int,
)
    ensures
        flush_count(spec_pattern_ext(d, img, x, y, width, height, offset_x, offset_y).log)
            == flush_count(d.log) + (if d.mode != PaintMode::Pattern && mode_flushes(d.mode) {
            1int
        } else {
            0int
        }),
{
    lemma_set_mode_flush_count(d, PaintMode::Pattern);
    let d2 = spec_set_mode(d, PaintMode::Pattern);
    if img.loaded {
        lemma_flush_count_push(
            d2.log,
            spec_pattern_ext(d, img, x, y, width, height, offset_x, offset_y).log.last(),
        );
        assert(spec_pattern_ext(d, img, x, y, width, height, offset_x, offset_y).log =~= d2.log.push(
            spec_pattern_ext(d, img, x, y, width, height, offset_x, offset_y).log.last(),
        ));
    }
}

/// Ending the frame flushes whatever batching mode was active, exactly
/// once and under the active projection, then ends the frame at the
/// device; with no batching mode active nothing is flushed.
pub proof fn lemma_end_flush_count(d: DrawModel)
    ensures
        flush_count(spec_end(d).log) == flush_count(d.log) + (if mode_flushes(d.mode) {
            1int
        } else {
            0int
        }),
        mode_flushes(d.mode) ==> spec_end(d).log == d.log.push(
            Cmd::Flush { mode: d.mode, projection: active_projection(d) },
        ).push(Cmd::EndFrame),
        !mode_flushes(d.mode) ==> spec_end(d).log == d.log.push(Cmd::EndFrame),
        spec_end(d).mode is Idle,
{
    lemma_set_mode_flush_count(d, PaintMode::Idle);
    let d2 = spec_set_mode(d, PaintMode::Idle);
    lemma_flush_count_push(d2.log, Cmd::EndFrame);
}

/// `push`/`pop` pairs balance exactly: a pop right after a push restores
/// the whole surface, command log included.
pub proof fn lemma_push_pop_balanced(d: DrawModel, m: Mat4)
    requires
        d.wf(),
    ensures
        spec_pop(spec_push(d, m)) == d,
{
    assert(spec_push(d, m).stack.drop_last() =~= d.stack);
}

/// Popping a stack holding only the identity bottom is a no-op and
/// leaves the current transform the identity.
pub proof fn lemma_pop_identity_bottom(d: DrawModel)
    requires
        d.wf(),
        d.stack.len() == 1,
    ensures
        spec_pop(d) == d,
        spec_pop(d).stack.last() == Mat4::spec_identity(),
{
}

/// An image draw with zero width and height produces a destination quad
/// of exactly the frame's own width and height.
pub proof fn lemma_image_zero_size_uses_frame(
    d: DrawModel,
    img: Texture,
    x: int,
    y: int,
    source_x: int,
    source_y: int,
    source_width: int,
    source_height: int,
)
    ensures
        image_push_cmd(d, img, x, y, 0, 0, source_x, source_y, source_width, source_height)
            ->PushImage_quad == image_quad(
            x,
            y,
            x + img.frame.width,
            y + img.frame.height,
            d.depth,
        ),
{
}

/// With all four margins zero the 9-slice degenerates to a single
/// stretched image: every border draw has no extent and is skipped, and
/// the center draw — destination `(x, y, width, height)`, source the
/// whole frame — is exactly the direct `image_ext` over the full
/// rectangle, whose zero source size resolves to the same whole frame.
pub proof fn lemma_9slice_zero_margins_degenerates(
    d: DrawModel,
    img: Texture,
    x: int,
    y: int,
    width: int,
    height: int,
)
    requires
        img.wf(),
    ensures
        spec_image_9slice_ext(d, img, x, y, width, height, 0, 0, 0, 0) == spec_image_ext(
            d,
            img,
            x,
            y,
            width,
            height,
            0,
            0,
            0,
            0,
        ),
{
    let fw = img.frame.width as int;
    let fh = img.frame.height as int;
    assert(image_push_cmd(d, img, x, y, width, height, 0, 0, fw, fh) == image_push_cmd(
        d,
        img,
        x,
        y,
        width,
        height,
        0,
        0,
        0,
        0,
    ));
    assert(spec_image_9slice_ext(d, img, x, y, width, height, 0, 0, 0, 0) == spec_image_ext(
        d,
        img,
        x + 0,
        y + 0,
        width - 0,
        height - 0,
        0,
        0,
        fw,
        fh,
    ));
}

/// Pattern tiling is periodic in the offset: advancing a nonnegative
/// offset by one whole frame width leaves every texture coordinate
/// unchanged.
pub proof fn lemma_pattern_offset_periodic(
    width: int,
    height: int,
    offset_x: int,
    offset_y: int,
    fw: int,
    fh: int,
)
    requires
        0 < fw,
        0 < fh,
        0 <= offset_x,
    ensures
        pattern_uvs(width, height, offset_x + fw, offset_y, fw, fh) == pattern_uvs(
            width,
            height,
            offset_x,
            offset_y,
            fw,
            fh,
        ),
{
    lemma_mod_multiples_vanish(1, offset_x, fw);
    assert(fw * 1 + offset_x == offset_x + fw);
    assert(spec_trunc_rem(offset_x + fw, fw) == spec_trunc_rem(offset_x, fw));
}

/// The exact full-frame case: an offset of one frame width tiles
/// identically to an offset of zero.
pub proof fn lemma_pattern_offset_full_frame(width: int, height: int, offset_y: int, fw: int, fh: int)
    requires
        0 < fw,
        0 < fh,
    ensures
        pattern_uvs(width, height, fw, offset_y, fw, fh) == pattern_uvs(
            width,
            height,
            0,
            offset_y,
            fw,
            fh,
        ),
{
    lemma_pattern_offset_periodic(width, height, 0, offset_y, fw, fh);
}

} // verus!
