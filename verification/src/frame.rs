//! Per-frame control flow: extraction, then the three render passes in their
//! fixed order.
//!
//! All of this runs on the one rendering thread that owns the GPU context.
//! Each pass that is not yet initialized silently contributes nothing, so a
//! mis-sequenced frame skips drawing instead of crashing the frame loop.

use vstd::prelude::*;

use crate::extract::extract_frame;
use crate::extract::lights_of;
use crate::extract::sprites_of;
use crate::extract::strings_of;
use crate::extract::EntityData;
use crate::gpu::Gpu;
use crate::gpu::GpuCmd;
use crate::gpu::OrthoView;
use crate::light::light_render_cmds;
use crate::light::LightRenderer;
use crate::sprite::sprite_render_cmds;
use crate::sprite::SpriteRenderer;
use crate::text::glyphs_of_strings;
use crate::text::strings_fit;
use crate::text::strings_fit_exec;
use crate::text::text_render_cmds;
use crate::text::TextRenderer;

verus! {

/// The exact commands of one whole frame: the sprite pass's segment, then the
/// light/shadow pass's, then the text pass's, each empty where that pass is
/// not initialized.  `uploads_base` and `glyph_base` are the upload counts
/// before the frame.
pub open spec fn frame_render_cmds(
    sprite_pass: SpriteRenderer,
    light_pass: LightRenderer,
    text_pass: TextRenderer,
    entities: Seq<EntityData>,
    view: OrthoView,
    window_w: u32,
    window_h: u32,
    uploads_base: int,
    glyph_base: int,
) -> Seq<GpuCmd> {
    let sprite_segment = if sprite_pass.initialized() {
        sprite_render_cmds(sprite_pass, sprites_of(entities).len() as usize, view, uploads_base)
    } else {
        Seq::empty()
    };
    let light_base = uploads_base + if sprite_pass.initialized() {
        1int
    } else {
        0int
    };
    let light_segment = if light_pass.initialized() {
        light_render_cmds(
            light_pass,
            lights_of(entities).len() as usize,
            window_w,
            window_h,
            light_base,
        )
    } else {
        Seq::empty()
    };
    let text_segment = if text_pass.initialized() {
        text_render_cmds(
            text_pass,
            glyphs_of_strings(strings_of(entities), text_pass.glyph_px()).len() as usize,
            window_w,
            window_h,
            glyph_base,
        )
    } else {
        Seq::empty()
    };
    sprite_segment + light_segment + text_segment
}

/// Decide, exactly, whether every text run the entities induce fits the
/// 32-bit pixel space: the answer equals `render_frame`'s text precondition,
/// so the frame loop can test it before drawing.
pub fn entities_fit(entities: &Vec<EntityData>, glyph_px: u32) -> (b: bool)
    ensures
        b == strings_fit(strings_of(entities@), glyph_px),
{
    let frame = extract_frame(entities);
    strings_fit_exec(&frame.strings, glyph_px)
}

/// Draw one frame: extract the entities' records, then run the sprite pass,
/// the light/shadow pass and the text pass, strictly in that order.  The
/// whole frame appends exactly `frame_render_cmds` to the trace; a pass that
/// was never initialized contributes nothing and raises no error.
pub fn render_frame(
    gpu: &mut Gpu,
    sprite_pass: &SpriteRenderer,
    light_pass: &LightRenderer,
    text_pass: &TextRenderer,
    entities: &Vec<EntityData>,
    view: OrthoView,
    window_w: u32,
    window_h: u32,
)
    requires
        light_pass.wf(),
        strings_fit(strings_of(entities@), text_pass.glyph_px()),
    ensures
        final(gpu).trace() == old(gpu).trace() + frame_render_cmds(
            *sprite_pass,
            *light_pass,
            *text_pass,
            entities@,
            view,
            window_w,
            window_h,
            old(gpu).uploads().len() as int,
            old(gpu).glyph_uploads().len() as int,
        ),
        final(gpu).next_id() == old(gpu).next_id(),
{
    let frame = extract_frame(entities);
    sprite_pass.render(gpu, &frame.sprites, view);
    light_pass.render(gpu, &frame.lights, window_w, window_h);
    text_pass.render(gpu, &frame.strings, window_w, window_h);
    proof {
        assert(gpu.trace() =~= old(gpu).trace() + frame_render_cmds(
            *sprite_pass,
            *light_pass,
            *text_pass,
            entities@,
            view,
            window_w,
            window_h,
            old(gpu).uploads().len() as int,
            old(gpu).glyph_uploads().len() as int,
        ));
    }
}

} // verus!
