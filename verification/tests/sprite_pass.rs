//! Sprite pass state machine and command trace behavior.

use lantern_render::{
    ColorBits, DecodedImage, DrawMode, EngineError, Gpu, GpuCmd, OrthoView, RenderSprite,
    SpriteRenderer,
};

fn rgba_image(w: u32, h: u32) -> DecodedImage {
    DecodedImage { width: w, height: h, channels: 4, data: vec![0u8; (w * h * 4) as usize] }
}

fn gray_image(w: u32, h: u32) -> DecodedImage {
    DecodedImage { width: w, height: h, channels: 1, data: vec![0u8; (w * h) as usize] }
}

fn palette_expanded_image(w: u32, h: u32) -> DecodedImage {
    DecodedImage { width: w, height: h, channels: 3, data: vec![0u8; (w * h * 3) as usize] }
}

fn default_view() -> OrthoView {
    OrthoView {
        left: 0.0f32.to_bits(),
        right: 800.0f32.to_bits(),
        bottom: 0.0f32.to_bits(),
        top: 600.0f32.to_bits(),
        near: (-1.0f32).to_bits(),
        far: 1.0f32.to_bits(),
    }
}

#[test]
fn sprite_init_twice_is_ok_and_allocates_nothing_twice() {
    let mut gpu = Gpu::new();
    let mut r = SpriteRenderer::new();
    assert!(r.init_with(&mut gpu, true, Some(rgba_image(2, 2))).is_ok());
    let after_first = gpu.trace_len();
    assert!(after_first > 0);
    assert!(r.init_with(&mut gpu, true, Some(rgba_image(2, 2))).is_ok());
    assert_eq!(gpu.trace_len(), after_first);
    // a second init with a bad image is still Ok and still allocates nothing
    assert!(r.init_with(&mut gpu, true, None).is_ok());
    assert_eq!(gpu.trace_len(), after_first);
}

#[test]
fn sprite_render_before_init_draws_nothing() {
    let mut gpu = Gpu::new();
    let r = SpriteRenderer::new();
    r.render(&mut gpu, &vec![RenderSprite::default()], default_view());
    assert_eq!(gpu.trace_len(), 0);
}

#[test]
fn init_rejects_non_rgba_atlases() {
    let mut gpu = Gpu::new();
    let mut r = SpriteRenderer::new();
    assert_eq!(
        r.init_with(&mut gpu, true, Some(gray_image(4, 4))),
        Err(EngineError::AtlasNotRgba)
    );
    assert_eq!(
        r.init_with(&mut gpu, true, Some(palette_expanded_image(4, 4))),
        Err(EngineError::AtlasNotRgba)
    );
    assert_eq!(r.init_with(&mut gpu, true, None), Err(EngineError::AtlasDecodeFailed));
    assert_eq!(gpu.trace_len(), 0);
    // an RGBA image of arbitrary dimensions is accepted
    assert!(r.init_with(&mut gpu, true, Some(rgba_image(3, 5))).is_ok());
}

#[test]
fn sprite_init_requires_loaded_bindings() {
    let mut gpu = Gpu::new();
    let mut r = SpriteRenderer::new();
    assert_eq!(
        r.init_with(&mut gpu, false, Some(rgba_image(2, 2))),
        Err(EngineError::BindingsNotLoaded)
    );
    // the real probe: this process never loaded the GPU entry points
    assert_eq!(r.init(&mut gpu, Some(rgba_image(2, 2))), Err(EngineError::BindingsNotLoaded));
    assert_eq!(gpu.trace_len(), 0);
}

#[test]
fn one_sprite_renders_as_one_point_draw_of_cell_five() {
    let mut gpu = Gpu::new();
    let mut r = SpriteRenderer::new();
    assert!(r.init_with(&mut gpu, true, Some(rgba_image(8, 8))).is_ok());
    let start = gpu.trace_len();

    let sprite = RenderSprite {
        translation: (32.0f32.to_bits(), 32.0f32.to_bits(), 0.0f32.to_bits()),
        sprite_id: 5,
        sprite_dims: 1,
        ..RenderSprite::default()
    };
    r.render(&mut gpu, &vec![sprite], default_view());

    let mut draws = 0;
    let mut upload_idx = None;
    for i in start..gpu.trace_len() {
        match gpu.trace_at(i) {
            GpuCmd::DrawArrays { mode, first, count } => {
                draws += 1;
                assert!(matches!(mode, DrawMode::Points));
                assert_eq!(first, 0);
                assert_eq!(count, 1);
            }
            GpuCmd::DrawElements { .. } => draws += 1,
            GpuCmd::BufferData { data_idx, .. } => upload_idx = Some(data_idx),
            _ => {}
        }
    }
    assert_eq!(draws, 1);

    let data = gpu.upload_at(upload_idx.expect("the render uploads the sprite records"));
    assert_eq!(data.len(), 44);
    assert_eq!(&data[0..4], &32.0f32.to_bits().to_le_bytes());
    assert_eq!(&data[4..8], &32.0f32.to_bits().to_le_bytes());
    assert_eq!(&data[8..12], &0.0f32.to_bits().to_le_bytes());
    // atlas cell 5, one cell footprint
    assert_eq!(&data[40..44], &[5, 0, 1, 0]);
}

#[test]
fn render_passes_the_view_through() {
    let mut gpu = Gpu::new();
    let mut r = SpriteRenderer::new();
    assert!(r.init_with(&mut gpu, true, Some(rgba_image(2, 2))).is_ok());
    let start = gpu.trace_len();
    let view = default_view();
    r.render(&mut gpu, &vec![], view);
    let mut seen = false;
    for i in start..gpu.trace_len() {
        if let GpuCmd::UniformOrtho { view: v, .. } = gpu.trace_at(i) {
            assert_eq!(v, view);
            seen = true;
        }
    }
    assert!(seen);
}

#[test]
fn sprite_color_defaults_to_opaque_white_in_upload() {
    let mut gpu = Gpu::new();
    let mut r = SpriteRenderer::new();
    assert!(r.init_with(&mut gpu, true, Some(rgba_image(2, 2))).is_ok());
    let start = gpu.trace_len();
    let tinted = RenderSprite {
        color: ColorBits {
            r: 1.0f32.to_bits(),
            g: 1.0f32.to_bits(),
            b: 1.0f32.to_bits(),
            a: 1.0f32.to_bits(),
        },
        ..RenderSprite::default()
    };
    r.render(&mut gpu, &vec![tinted], default_view());
    for i in start..gpu.trace_len() {
        if let GpuCmd::BufferData { data_idx, .. } = gpu.trace_at(i) {
            let data = gpu.upload_at(data_idx);
            assert_eq!(&data[24..28], &1.0f32.to_bits().to_le_bytes());
            assert_eq!(&data[36..40], &1.0f32.to_bits().to_le_bytes());
            return;
        }
    }
    panic!("no sprite upload found");
}
