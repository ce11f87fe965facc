//! Whole-frame sequencing: extraction feeding the three passes in order.

use lantern_render::extract::{EntityData, SpriteData, TextData, TransformData};
use lantern_render::{
    render_frame, ColorBits, DecodedImage, DrawMode, Gpu, GpuCmd, LightRenderer, OrthoView,
    SpriteRenderer, TextRenderer,
};

fn white() -> ColorBits {
    ColorBits {
        r: 1.0f32.to_bits(),
        g: 1.0f32.to_bits(),
        b: 1.0f32.to_bits(),
        a: 1.0f32.to_bits(),
    }
}

fn rgba_image(w: u32, h: u32) -> DecodedImage {
    DecodedImage { width: w, height: h, channels: 4, data: vec![0u8; (w * h * 4) as usize] }
}

fn view() -> OrthoView {
    OrthoView {
        left: 0.0f32.to_bits(),
        right: 800.0f32.to_bits(),
        bottom: 0.0f32.to_bits(),
        top: 600.0f32.to_bits(),
        near: (-1.0f32).to_bits(),
        far: 1.0f32.to_bits(),
    }
}

fn world() -> Vec<EntityData> {
    let none = || EntityData {
        transform: None,
        color: None,
        sprite: None,
        light: None,
        position_px: None,
        text: None,
    };
    let mut lit_sprite = none();
    lit_sprite.transform = Some(TransformData {
        translation: (100.0f32.to_bits(), 100.0f32.to_bits(), 0.0f32.to_bits()),
        scale: (1.0f32.to_bits(), 1.0f32.to_bits()),
        rotation: 0.0f32.to_bits(),
    });
    lit_sprite.color = Some(white());
    lit_sprite.sprite = Some(SpriteData { sprite_id: 7, sprite_dims: 1, sprite_flags: 0 });
    lit_sprite.light = Some(100.0f32.to_bits());

    let mut label = none();
    label.color = Some(white());
    label.position_px = Some((4, 4));
    label.text = Some(TextData { content: b"hp".to_vec(), size: 1, offset: (0, 0) });

    vec![lit_sprite, label]
}

#[test]
fn frame_runs_passes_in_fixed_order() {
    let mut gpu = Gpu::new();
    let mut sprite_pass = SpriteRenderer::new();
    let mut light_pass = LightRenderer::new();
    let mut text_pass = TextRenderer::new();
    assert!(sprite_pass.init_with(&mut gpu, true, Some(rgba_image(8, 8))).is_ok());
    assert!(light_pass.init_with(&mut gpu, true).is_ok());
    assert!(text_pass.init_with(&mut gpu, true, Some(rgba_image(128, 64)), 8).is_ok());
    let start = gpu.trace_len();

    render_frame(&mut gpu, &sprite_pass, &light_pass, &text_pass, &world(), view(), 800, 600);

    // one sprite point, one light point batch, the mask quad, one glyph batch
    let mut draw_counts = Vec::new();
    for i in start..gpu.trace_len() {
        match gpu.trace_at(i) {
            GpuCmd::DrawArrays { mode, count, .. } => {
                assert!(matches!(mode, DrawMode::Points));
                draw_counts.push(count);
            }
            GpuCmd::DrawElements { mode, count } => {
                assert!(matches!(mode, DrawMode::Triangles));
                draw_counts.push(count);
            }
            _ => {}
        }
    }
    // sprite pass: 1 sprite; light pass: 1 light, then 6 quad indices;
    // text pass: 2 glyphs
    assert_eq!(draw_counts, vec![1, 1, 6, 2]);
}

#[test]
fn uninitialized_passes_skip_their_segment() {
    let mut gpu = Gpu::new();
    let mut sprite_pass = SpriteRenderer::new();
    let light_pass = LightRenderer::new();
    let text_pass = TextRenderer::new();
    assert!(sprite_pass.init_with(&mut gpu, true, Some(rgba_image(8, 8))).is_ok());
    let start = gpu.trace_len();

    render_frame(&mut gpu, &sprite_pass, &light_pass, &text_pass, &world(), view(), 800, 600);

    let mut arrays = 0;
    let mut elements = 0;
    for i in start..gpu.trace_len() {
        match gpu.trace_at(i) {
            GpuCmd::DrawArrays { .. } => arrays += 1,
            GpuCmd::DrawElements { .. } => elements += 1,
            _ => {}
        }
    }
    // only the sprite pass ran; the skipped passes raised no error
    assert_eq!((arrays, elements), (1, 0));
}
