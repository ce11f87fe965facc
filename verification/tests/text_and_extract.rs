//! Text layout, frame-data extraction and shader builder outcomes.

use lantern_render::extract::{extract_frame, EntityData, SpriteData, TextData, TransformData};
use lantern_render::text::strings_fit_exec;
use lantern_render::{
    entities_fit, program_outcome, ColorBits, DecodedImage, EngineError, Gpu, GpuCmd,
    RenderString, ShaderStage, TextRenderer,
};

fn white() -> ColorBits {
    ColorBits {
        r: 1.0f32.to_bits(),
        g: 1.0f32.to_bits(),
        b: 1.0f32.to_bits(),
        a: 1.0f32.to_bits(),
    }
}

fn rgba_image(w: u32, h: u32) -> DecodedImage {
    DecodedImage { width: w, height: h, channels: 4, data: vec![0u8; (w * h * 4) as usize] }
}

#[test]
fn text_layout_advances_one_scaled_glyph_per_character() {
    let mut gpu = Gpu::new();
    let mut r = TextRenderer::new();
    assert!(r.init_with(&mut gpu, true, Some(rgba_image(128, 64)), 8).is_ok());
    let start = gpu.trace_len();

    let s = RenderString {
        content: b"hi!".to_vec(),
        position: (100, 50),
        size: 2,
        color: white(),
        offset: (1, 2),
    };
    r.render(&mut gpu, &vec![s], 800, 600);

    let mut glyph_idx = None;
    let mut point_count = None;
    for i in start..gpu.trace_len() {
        match gpu.trace_at(i) {
            GpuCmd::BufferGlyphData { data_idx } => glyph_idx = Some(data_idx),
            GpuCmd::DrawArrays { count, .. } => point_count = Some(count),
            _ => {}
        }
    }
    assert_eq!(point_count, Some(3));
    let glyphs = gpu.glyph_upload_at(glyph_idx.expect("the render uploads the glyph batch"));
    assert_eq!(glyphs.len(), 3);
    // anchor + offset, advancing glyph_px * size = 16 per character
    assert_eq!((glyphs[0].x, glyphs[0].y), (101, 52));
    assert_eq!((glyphs[1].x, glyphs[1].y), (117, 52));
    assert_eq!((glyphs[2].x, glyphs[2].y), (133, 52));
    assert_eq!(glyphs[0].size, 16);
    assert_eq!(glyphs[0].glyph_id, b'h');
    assert_eq!(glyphs[1].glyph_id, b'i');
    assert_eq!(glyphs[2].glyph_id, b'!');
}

#[test]
fn text_render_before_init_draws_nothing() {
    let mut gpu = Gpu::new();
    let r = TextRenderer::new();
    let s = RenderString {
        content: b"x".to_vec(),
        position: (0, 0),
        size: 1,
        color: white(),
        offset: (0, 0),
    };
    r.render(&mut gpu, &vec![s], 800, 600);
    assert_eq!(gpu.trace_len(), 0);
}

#[test]
fn font_load_failure_is_an_init_error() {
    let mut gpu = Gpu::new();
    let mut r = TextRenderer::new();
    let gray = DecodedImage { width: 8, height: 8, channels: 1, data: vec![0u8; 64] };
    assert_eq!(r.init_with(&mut gpu, true, Some(gray), 8), Err(EngineError::AtlasNotRgba));
    assert_eq!(r.init_with(&mut gpu, true, None, 8), Err(EngineError::AtlasDecodeFailed));
    assert_eq!(r.init(&mut gpu, Some(rgba_image(8, 8)), 8), Err(EngineError::BindingsNotLoaded));
    assert_eq!(gpu.trace_len(), 0);
}

#[test]
fn text_init_is_idempotent() {
    let mut gpu = Gpu::new();
    let mut r = TextRenderer::new();
    assert!(r.init_with(&mut gpu, true, Some(rgba_image(8, 8)), 8).is_ok());
    let after_first = gpu.trace_len();
    assert!(r.init_with(&mut gpu, true, None, 12).is_ok());
    assert_eq!(gpu.trace_len(), after_first);
}

fn transform_at(x: f32, y: f32) -> TransformData {
    TransformData {
        translation: (x.to_bits(), y.to_bits(), 0.0f32.to_bits()),
        scale: (1.0f32.to_bits(), 1.0f32.to_bits()),
        rotation: 0.0f32.to_bits(),
    }
}

fn empty_entity() -> EntityData {
    EntityData { transform: None, color: None, sprite: None, light: None, position_px: None, text: None }
}

#[test]
fn extraction_joins_components_per_entity() {
    // one entity carrying both a sprite and a light contributes one record to
    // each list
    let sprite_and_light = EntityData {
        transform: Some(transform_at(100.0, 100.0)),
        color: Some(white()),
        sprite: Some(SpriteData { sprite_id: 3, sprite_dims: 1, sprite_flags: 0 }),
        light: Some(100.0f32.to_bits()),
        position_px: None,
        text: None,
    };
    let sprite_only = EntityData {
        transform: Some(transform_at(32.0, 32.0)),
        color: Some(white()),
        sprite: Some(SpriteData { sprite_id: 5, sprite_dims: 2, sprite_flags: 1 }),
        ..empty_entity()
    };
    // a light entity carrying text contributes a light and a string
    let cursor = EntityData {
        transform: Some(transform_at(10.0, 20.0)),
        color: Some(white()),
        light: Some(300.0f32.to_bits()),
        position_px: Some((10, 20)),
        text: Some(TextData { content: b">9000".to_vec(), size: 2, offset: (0, 0) }),
        ..empty_entity()
    };
    // missing components contribute nothing
    let bare = empty_entity();
    let sprite_without_color = EntityData {
        transform: Some(transform_at(1.0, 1.0)),
        sprite: Some(SpriteData { sprite_id: 9, sprite_dims: 1, sprite_flags: 0 }),
        ..empty_entity()
    };

    let frame =
        extract_frame(&vec![sprite_and_light, sprite_only, cursor, bare, sprite_without_color]);

    assert_eq!(frame.sprites.len(), 2);
    assert_eq!(frame.sprites[0].sprite_id, 3);
    assert_eq!(frame.sprites[1].sprite_id, 5);
    assert_eq!(frame.sprites[1].sprite_dims, 2);

    assert_eq!(frame.lights.len(), 2);
    assert_eq!(frame.lights[0].position.0, 100.0f32.to_bits());
    assert_eq!(frame.lights[0].intensity, 100.0f32.to_bits());
    assert_eq!(frame.lights[1].intensity, 300.0f32.to_bits());

    assert_eq!(frame.strings.len(), 1);
    assert_eq!(frame.strings[0].content, b">9000".to_vec());
    assert_eq!(frame.strings[0].position, (10, 20));
    assert_eq!(frame.strings[0].size, 2);
}

#[test]
fn extraction_of_nothing_is_nothing() {
    let frame = extract_frame(&vec![]);
    assert!(frame.sprites.is_empty());
    assert!(frame.lights.is_empty());
    assert!(frame.strings.is_empty());
}

#[test]
fn shader_builder_names_the_failing_stage() {
    assert!(program_outcome(true, true, Some(true), true).is_ok());
    assert!(program_outcome(true, true, None, true).is_ok());
    assert_eq!(
        program_outcome(false, true, Some(true), true),
        Err(EngineError::ShaderBuild(ShaderStage::Vertex))
    );
    assert_eq!(
        program_outcome(true, false, None, true),
        Err(EngineError::ShaderBuild(ShaderStage::Fragment))
    );
    assert_eq!(
        program_outcome(true, true, Some(false), false),
        Err(EngineError::ShaderBuild(ShaderStage::Geometry))
    );
    assert_eq!(
        program_outcome(true, true, None, false),
        Err(EngineError::ShaderBuild(ShaderStage::Link))
    );
    assert_eq!(
        program_outcome(true, true, Some(true), false),
        Err(EngineError::ShaderBuild(ShaderStage::Link))
    );
}

#[test]
fn errors_describe_themselves() {
    assert_eq!(
        EngineError::AtlasNotRgba.describe(),
        "the texture atlas is not in RGBA pixel layout"
    );
    assert_eq!(
        EngineError::ShaderBuild(ShaderStage::Vertex).describe(),
        "the vertex shader failed to compile"
    );
    let errors = [
        EngineError::BindingsNotLoaded,
        EngineError::AtlasDecodeFailed,
        EngineError::AtlasNotRgba,
        EngineError::ShaderBuild(ShaderStage::Fragment),
        EngineError::ShaderBuild(ShaderStage::Geometry),
        EngineError::ShaderBuild(ShaderStage::Link),
    ];
    for e in errors {
        assert!(!e.describe().is_empty());
    }
}

#[test]
fn fit_check_is_exact_at_the_boundary() {
    let string_at = |position: (u32, u32), size: u32| RenderString {
        content: b"a".to_vec(),
        position,
        size,
        color: white(),
        offset: (0, 0),
    };
    // one glyph of advance u32::MAX - 1 anchored at x = 1 ends exactly at
    // u32::MAX; anchored at x = 2 it leaves the 32-bit pixel space
    let half = (u32::MAX - 1) / 2;
    assert!(strings_fit_exec(&vec![string_at((1, 0), half)], 2));
    assert!(!strings_fit_exec(&vec![string_at((2, 0), half)], 2));
    // a scaled glyph size that itself overflows is rejected
    assert!(!strings_fit_exec(&vec![string_at((0, 0), 2)], u32::MAX));
    // a y anchor that wraps is rejected
    let mut high = string_at((0, u32::MAX), 1);
    high.offset = (0, 1);
    assert!(!strings_fit_exec(&vec![high], 8));
    // one bad string spoils the frame, whatever its neighbors
    assert!(!strings_fit_exec(
        &vec![string_at((0, 0), 1), string_at((2, 0), half)],
        2
    ));
    assert!(strings_fit_exec(&vec![], 8));
}

#[test]
fn entities_fit_matches_their_text_runs() {
    let label_at = |position: (u32, u32), offset: (u32, u32)| EntityData {
        transform: None,
        color: Some(white()),
        sprite: None,
        light: None,
        position_px: Some(position),
        text: Some(TextData { content: b"hp".to_vec(), size: 1, offset }),
    };
    let plain = EntityData {
        transform: None,
        color: None,
        sprite: None,
        light: None,
        position_px: None,
        text: None,
    };
    assert!(entities_fit(&vec![plain], 8));
    assert!(entities_fit(&vec![label_at((4, 4), (0, 0))], 8));
    // blow the anchor out of the pixel space
    assert!(!entities_fit(&vec![label_at((u32::MAX, 0), (1, 0))], 8));
}
