//! Light/shadow pass state machine, viewport handling and sub-pass order.

use lantern_render::{DrawMode, EngineError, Gpu, GpuCmd, LightRenderer, RenderLight};

#[test]
fn light_init_twice_is_ok_and_allocates_nothing_twice() {
    let mut gpu = Gpu::new();
    let mut r = LightRenderer::new();
    assert!(r.init_with(&mut gpu, true).is_ok());
    let after_first = gpu.trace_len();
    assert!(after_first > 0);
    assert!(r.init_with(&mut gpu, true).is_ok());
    assert_eq!(gpu.trace_len(), after_first);
}

#[test]
fn light_init_requires_loaded_bindings() {
    let mut gpu = Gpu::new();
    let mut r = LightRenderer::new();
    assert_eq!(r.init_with(&mut gpu, false), Err(EngineError::BindingsNotLoaded));
    // the real probe: this process never loaded the GPU entry points
    assert_eq!(r.init(&mut gpu), Err(EngineError::BindingsNotLoaded));
    assert_eq!(gpu.trace_len(), 0);
}

#[test]
fn light_render_before_init_draws_nothing() {
    let mut gpu = Gpu::new();
    let r = LightRenderer::new();
    r.render(&mut gpu, &vec![], 800, 600);
    assert_eq!(gpu.trace_len(), 0);
}

#[test]
fn accumulation_viewport_is_downsampled_then_restored() {
    for scale in [1u32, 2, 4, 8] {
        let mut gpu = Gpu::new();
        let mut r = LightRenderer::new();
        r.set_dither_scale(scale);
        assert!(r.init_with(&mut gpu, true).is_ok());
        let start = gpu.trace_len();
        r.render(&mut gpu, &vec![], 800, 600);

        let mut viewports = Vec::new();
        for i in start..gpu.trace_len() {
            if let GpuCmd::Viewport { x, y, width, height } = gpu.trace_at(i) {
                viewports.push((x, y, width, height));
            }
        }
        assert_eq!(
            viewports,
            vec![(0, 0, 800 / scale, 600 / scale), (0, 0, 800, 600)],
            "dither scale {scale}"
        );
    }
}

#[test]
fn viewport_truncates_consistently() {
    // an odd screen size: 803 / 4 and 601 / 4 truncate
    let mut gpu = Gpu::new();
    let mut r = LightRenderer::new();
    r.set_dither_scale(4);
    assert!(r.init_with(&mut gpu, true).is_ok());
    let start = gpu.trace_len();
    r.render(&mut gpu, &vec![], 803, 601);
    let mut first = None;
    for i in start..gpu.trace_len() {
        if let GpuCmd::Viewport { width, height, .. } = gpu.trace_at(i) {
            first = Some((width, height));
            break;
        }
    }
    assert_eq!(first, Some((200, 150)));
}

#[test]
fn zero_lights_still_clear_and_composite() {
    let mut gpu = Gpu::new();
    let mut r = LightRenderer::new();
    r.set_dither_scale(2);
    assert!(r.init_with(&mut gpu, true).is_ok());
    let start = gpu.trace_len();
    r.render(&mut gpu, &vec![], 800, 600);

    let mut clear_at = None;
    let mut accumulate_at = None;
    let mut composite_at = None;
    let mut draws = 0;
    for i in start..gpu.trace_len() {
        match gpu.trace_at(i) {
            GpuCmd::Clear { color, .. } => {
                assert!(color);
                clear_at = Some(i);
            }
            GpuCmd::DrawArrays { mode, count, .. } => {
                assert!(matches!(mode, DrawMode::Points));
                assert_eq!(count, 0);
                accumulate_at = Some(i);
                draws += 1;
            }
            GpuCmd::DrawElements { mode, count } => {
                assert!(matches!(mode, DrawMode::Triangles));
                assert_eq!(count, 6);
                composite_at = Some(i);
                draws += 1;
            }
            _ => {}
        }
    }
    let clear_at = clear_at.expect("the lightmap is cleared");
    let accumulate_at = accumulate_at.expect("the accumulation draw still runs");
    let composite_at = composite_at.expect("the mask quad is still drawn");
    assert!(clear_at < accumulate_at && accumulate_at < composite_at);
    assert_eq!(draws, 2);
}

#[test]
fn light_records_are_uploaded_packed() {
    let mut gpu = Gpu::new();
    let mut r = LightRenderer::new();
    assert!(r.init_with(&mut gpu, true).is_ok());
    let start = gpu.trace_len();
    let lights = vec![
        RenderLight {
            position: (100.0f32.to_bits(), 100.0f32.to_bits()),
            intensity: 100.0f32.to_bits(),
        },
        RenderLight { position: (0.0f32.to_bits(), 0.0f32.to_bits()), intensity: 300.0f32.to_bits() },
    ];
    r.render(&mut gpu, &lights, 800, 600);

    let mut upload = None;
    let mut point_count = None;
    for i in start..gpu.trace_len() {
        match gpu.trace_at(i) {
            GpuCmd::BufferData { data_idx, .. } => upload = Some(data_idx),
            GpuCmd::DrawArrays { count, .. } => point_count = Some(count),
            _ => {}
        }
    }
    assert_eq!(point_count, Some(2));
    let data = gpu.upload_at(upload.expect("the render uploads the light records"));
    assert_eq!(data.len(), 24);
    assert_eq!(&data[0..4], &100.0f32.to_bits().to_le_bytes());
    assert_eq!(&data[8..12], &100.0f32.to_bits().to_le_bytes());
    assert_eq!(&data[20..24], &300.0f32.to_bits().to_le_bytes());
}
