//! Light/shadow pass: lightmap accumulation and shadow-mask compositing.
//!
//! One state machine drives two sub-passes over one shared off-screen target.
//! Accumulation renders every light as an additively blended point splat into
//! a downsampled lightmap; compositing restores normal blending and draws a
//! full-screen quad whose fragments sample the lightmap and dither the
//! darkness mask.  The ordering of the two sub-passes is fixed here, not left
//! to the caller.

use vstd::prelude::*;

use crate::bind::gl_bindings_loaded;
use crate::error::EngineError;
use crate::gpu::AttribKind;
use crate::gpu::BlendFactor;
use crate::gpu::BufferTarget;
use crate::gpu::BufferUsage;
use crate::gpu::Capability;
use crate::gpu::DrawMode;
use crate::gpu::Gpu;
use crate::gpu::GpuCmd;
use crate::gpu::PixelFormat;
use crate::gpu::ProgramKind;
use crate::gpu::UniformName;
use crate::records::light_attribs;
use crate::records::lights_bytes;
use crate::records::pack_lights;
use crate::records::pack_quad_indices;
use crate::records::pack_screen_quad;
use crate::records::screen_quad_indices;
use crate::records::screen_quad_words;
use crate::records::words_bytes;
use crate::records::RenderLight;
use crate::records::LIGHT_STRIDE;
use crate::records::QUAD_STRIDE;
use crate::records::QUAD_UV_OFFSET;

verus! {

/// Width in pixels of the lightmap color texture's backing storage.
pub const LIGHTMAP_TEX_W: u32 = 1920;

/// Height in pixels of the lightmap color texture's backing storage.
pub const LIGHTMAP_TEX_H: u32 = 1080;

/// Vertex count of the screen quad's index list: two triangles.
pub const QUAD_INDEX_COUNT: usize = 6;

/// The light/shadow pass renderer.  Constructed uninitialized; `init` moves
/// it to the ready state once and is a no-op afterwards; `render` before a
/// successful `init` silently draws nothing.
pub struct LightRenderer {
    initialized: bool,
    dither_scale: u32,
    fbo: u64,
    shader_lightmap: u64,
    shader_shadowmask: u64,
    vao_lights: u64,
    vao_quad: u64,
    abo_lights: u64,
    abo_quad: u64,
    ebo: u64,
    tex: u64,
    uloc_view_projection: u64,
    uloc_px_scale: u64,
    uloc_lightmap_scale: u64,
}

/// The exact commands of a successful light/shadow initialization, given the
/// first fresh model handle `base`; the static quad vertex and index bytes
/// are uploads `data_idx` and `data_idx + 1`.
pub open spec fn light_init_cmds(base: u64, data_idx: int) -> Seq<GpuCmd> {
    seq![
        GpuCmd::CompileProgram { program: base, kind: ProgramKind::Lightmap },
        GpuCmd::CompileProgram { program: (base + 1) as u64, kind: ProgramKind::ShadowMask },
        GpuCmd::GenFramebuffer { fbo: (base + 2) as u64 },
        GpuCmd::GenVertexArray { vao: (base + 3) as u64 },
        GpuCmd::GenVertexArray { vao: (base + 4) as u64 },
        GpuCmd::GenBuffer { buf: (base + 5) as u64 },
        GpuCmd::GenBuffer { buf: (base + 6) as u64 },
        GpuCmd::GenBuffer { buf: (base + 7) as u64 },
        GpuCmd::GenTexture { tex: (base + 8) as u64 },
        GpuCmd::BindVertexArray { vao: (base + 3) as u64 },
        GpuCmd::BindBuffer { target: BufferTarget::Array, buf: (base + 5) as u64 },
        GpuCmd::BindFramebuffer { fbo: (base + 2) as u64 },
        GpuCmd::BindTexture { tex: (base + 8) as u64 },
        GpuCmd::TexFilterNearest,
        GpuCmd::TexImage2dNull {
            width: LIGHTMAP_TEX_W,
            height: LIGHTMAP_TEX_H,
            format: PixelFormat::Rgb,
        },
        GpuCmd::FramebufferTexture { tex: (base + 8) as u64 },
        GpuCmd::EnableVertexAttrib { index: 0 },
        GpuCmd::VertexAttribPointer {
            index: 0,
            size: 2,
            kind: AttribKind::Float,
            stride: LIGHT_STRIDE,
            offset: 0,
        },
        GpuCmd::EnableVertexAttrib { index: 1 },
        GpuCmd::VertexAttribPointer {
            index: 1,
            size: 1,
            kind: AttribKind::Float,
            stride: LIGHT_STRIDE,
            offset: 8,
        },
        GpuCmd::BindVertexArray { vao: (base + 4) as u64 },
        GpuCmd::BindBuffer { target: BufferTarget::Array, buf: (base + 6) as u64 },
        GpuCmd::BindBuffer { target: BufferTarget::ElementArray, buf: (base + 7) as u64 },
        GpuCmd::EnableVertexAttrib { index: 0 },
        GpuCmd::VertexAttribPointer {
            index: 0,
            size: 2,
            kind: AttribKind::Float,
            stride: QUAD_STRIDE,
            offset: 0,
        },
        GpuCmd::EnableVertexAttrib { index: 1 },
        GpuCmd::VertexAttribPointer {
            index: 1,
            size: 2,
            kind: AttribKind::Float,
            stride: QUAD_STRIDE,
            offset: QUAD_UV_OFFSET,
        },
        GpuCmd::BufferData {
            target: BufferTarget::Array,
            data_idx: data_idx as usize,
            usage: BufferUsage::StaticDraw,
        },
        GpuCmd::BufferData {
            target: BufferTarget::ElementArray,
            data_idx: (data_idx + 1) as usize,
            usage: BufferUsage::StaticDraw,
        },
        GpuCmd::GetUniformLocation {
            program: base,
            name: UniformName::ViewProjection,
            loc: (base + 9) as u64,
        },
        GpuCmd::GetUniformLocation {
            program: base,
            name: UniformName::PxScale,
            loc: (base + 10) as u64,
        },
        GpuCmd::GetUniformLocation {
            program: (base + 1) as u64,
            name: UniformName::LightmapScale,
            loc: (base + 11) as u64,
        },
        GpuCmd::BindTexture { tex: 0 },
        GpuCmd::BindFramebuffer { fbo: 0 },
        GpuCmd::BindBuffer { target: BufferTarget::Array, buf: 0 },
        GpuCmd::BindBuffer { target: BufferTarget::ElementArray, buf: 0 },
        GpuCmd::BindVertexArray { vao: 0 },
        GpuCmd::UseProgram { program: 0 },
    ]
}

/// The exact commands of a light/shadow render of `n` lights at screen size
/// `width` x `height`, whose packed light records are upload `data_idx`.
///
/// Accumulation: additive blending, viewport switched to the downsampled
/// lightmap size, one point per light drawn into the off-screen target (the
/// target is cleared even when there are no lights).  Compositing: normal
/// blending restored, viewport restored to the full screen, one full-screen
/// quad drawn sampling the lightmap.
pub open spec fn light_render_cmds(
    r: LightRenderer,
    n: usize,
    width: u32,
    height: u32,
    data_idx: int,
) -> Seq<GpuCmd> {
    seq![
        GpuCmd::Disable { cap: Capability::DepthTest },
        GpuCmd::UseProgram { program: r.shader_lightmap() },
        GpuCmd::BindFramebuffer { fbo: r.fbo() },
        GpuCmd::BindTexture { tex: r.tex() },
        GpuCmd::BindVertexArray { vao: r.vao_lights() },
        GpuCmd::BindBuffer { target: BufferTarget::Array, buf: r.abo_lights() },
        GpuCmd::Clear { color: true, depth: false },
        GpuCmd::BlendFunc { src: BlendFactor::One, dst: BlendFactor::One },
        GpuCmd::Viewport {
            x: 0,
            y: 0,
            width: (width / r.dither_scale()) as u32,
            height: (height / r.dither_scale()) as u32,
        },
        GpuCmd::UniformOrthoFromSize {
            loc: r.uloc_view_projection(),
            width: (width / r.dither_scale()) as u32,
            height: (height / r.dither_scale()) as u32,
        },
        GpuCmd::Uniform1iAsFloat { loc: r.uloc_px_scale(), value: r.dither_scale() },
        GpuCmd::BufferData {
            target: BufferTarget::Array,
            data_idx: data_idx as usize,
            usage: BufferUsage::DynamicDraw,
        },
        GpuCmd::DrawArrays { mode: DrawMode::Points, first: 0, count: n },
        GpuCmd::BlendFunc { src: BlendFactor::SrcAlpha, dst: BlendFactor::OneMinusSrcAlpha },
        GpuCmd::BindFramebuffer { fbo: 0 },
        GpuCmd::BindBuffer { target: BufferTarget::Array, buf: 0 },
        GpuCmd::Viewport { x: 0, y: 0, width, height },
        GpuCmd::BlendFuncSeparate {
            src_rgb: BlendFactor::SrcAlpha,
            dst_rgb: BlendFactor::OneMinusSrcAlpha,
            src_alpha: BlendFactor::One,
            dst_alpha: BlendFactor::One,
        },
        GpuCmd::UseProgram { program: r.shader_shadowmask() },
        GpuCmd::BindVertexArray { vao: r.vao_quad() },
        GpuCmd::BindBuffer { target: BufferTarget::Array, buf: r.abo_quad() },
        GpuCmd::BindBuffer { target: BufferTarget::ElementArray, buf: r.ebo() },
        GpuCmd::BindTexture { tex: r.tex() },
        GpuCmd::Uniform1iAsFloat { loc: r.uloc_lightmap_scale(), value: r.dither_scale() },
        GpuCmd::DrawElements { mode: DrawMode::Triangles, count: QUAD_INDEX_COUNT },
        GpuCmd::BindTexture { tex: 0 },
        GpuCmd::BindVertexArray { vao: 0 },
        GpuCmd::UseProgram { program: 0 },
    ]
}

impl LightRenderer {
    /// Whether `init` has succeeded.
    pub closed spec fn initialized(self) -> bool {
        self.initialized
    }

    /// The integer downsample factor of the lightmap target.
    pub closed spec fn dither_scale(self) -> u32 {
        self.dither_scale
    }

    /// The downsample factor is never zero, so the downsampled viewport is
    /// always well defined.
    pub open spec fn wf(self) -> bool {
        self.dither_scale() >= 1
    }

    /// Model handle of the lightmap framebuffer.
    pub closed spec fn fbo(self) -> u64 {
        self.fbo
    }

    /// Model handle of the lightmap accumulation program.
    pub closed spec fn shader_lightmap(self) -> u64 {
        self.shader_lightmap
    }

    /// Model handle of the shadow-mask compositing program.
    pub closed spec fn shader_shadowmask(self) -> u64 {
        self.shader_shadowmask
    }

    /// Model handle of the light-records vertex array.
    pub closed spec fn vao_lights(self) -> u64 {
        self.vao_lights
    }

    /// Model handle of the screen-quad vertex array.
    pub closed spec fn vao_quad(self) -> u64 {
        self.vao_quad
    }

    /// Model handle of the dynamic light-records buffer.
    pub closed spec fn abo_lights(self) -> u64 {
        self.abo_lights
    }

    /// Model handle of the static screen-quad vertex buffer.
    pub closed spec fn abo_quad(self) -> u64 {
        self.abo_quad
    }

    /// Model handle of the static screen-quad index buffer.
    pub closed spec fn ebo(self) -> u64 {
        self.ebo
    }

    /// Model handle of the lightmap color texture.
    pub closed spec fn tex(self) -> u64 {
        self.tex
    }

    /// Model location of the lightmap program's `view_projection` uniform.
    pub closed spec fn uloc_view_projection(self) -> u64 {
        self.uloc_view_projection
    }

    /// Model location of the lightmap program's `px_scale` uniform.
    pub closed spec fn uloc_px_scale(self) -> u64 {
        self.uloc_px_scale
    }

    /// Model location of the mask program's `lightmap_scale` uniform.
    pub closed spec fn uloc_lightmap_scale(self) -> u64 {
        self.uloc_lightmap_scale
    }

    /// A fresh, uninitialized light/shadow renderer owning no GPU objects,
    /// with no downsampling (factor 1): every handle and cached uniform
    /// location is the zero sentinel until `init` succeeds, and `render`
    /// draws nothing until then.
    pub fn new() -> (r: Self)
        ensures
            !r.initialized(),
            r.dither_scale() == 1,
            r.wf(),
            r.fbo() == 0,
            r.shader_lightmap() == 0,
            r.shader_shadowmask() == 0,
            r.vao_lights() == 0,
            r.vao_quad() == 0,
            r.abo_lights() == 0,
            r.abo_quad() == 0,
            r.ebo() == 0,
            r.tex() == 0,
            r.uloc_view_projection() == 0,
            r.uloc_px_scale() == 0,
            r.uloc_lightmap_scale() == 0,
    {
        LightRenderer {
            initialized: false,
            dither_scale: 1,
            fbo: 0,
            shader_lightmap: 0,
            shader_shadowmask: 0,
            vao_lights: 0,
            vao_quad: 0,
            abo_lights: 0,
            abo_quad: 0,
            ebo: 0,
            tex: 0,
            uloc_view_projection: 0,
            uloc_px_scale: 0,
            uloc_lightmap_scale: 0,
        }
    }

    /// Set the lightmap downsample factor; quality is traded for fill rate.
    pub fn set_dither_scale(&mut self, scale: u32)
        requires
            scale >= 1,
        ensures
            final(self).dither_scale() == scale,
            final(self).wf(),
            final(self).initialized() == old(self).initialized(),
            final(self).fbo() == old(self).fbo(),
            final(self).shader_lightmap() == old(self).shader_lightmap(),
            final(self).shader_shadowmask() == old(self).shader_shadowmask(),
            final(self).vao_lights() == old(self).vao_lights(),
            final(self).vao_quad() == old(self).vao_quad(),
            final(self).abo_lights() == old(self).abo_lights(),
            final(self).abo_quad() == old(self).abo_quad(),
            final(self).ebo() == old(self).ebo(),
            final(self).tex() == old(self).tex(),
            final(self).uloc_view_projection() == old(self).uloc_view_projection(),
            final(self).uloc_px_scale() == old(self).uloc_px_scale(),
            final(self).uloc_lightmap_scale() == old(self).uloc_lightmap_scale(),
    {
        self.dither_scale = scale;
    }

    /// Initialize the pass against an already-probed binder state.
    /// Idempotent: on an initialized renderer it returns `Ok` at once and
    /// touches nothing.  Otherwise it fails exactly when the bindings are not
    /// loaded; on success it provisions both sub-passes' GPU objects.
    pub fn init_with(&mut self, gpu: &mut Gpu, bindings_loaded: bool) -> (r: Result<
        (),
        EngineError,
    >)
        requires
            old(gpu).next_id() + 12 <= u64::MAX,
        ensures
            old(self).initialized() ==> r is Ok && *final(self) == *old(self) && final(gpu).same_session(
                *old(gpu),
            ),
            !old(self).initialized() && !bindings_loaded ==> r == Err::<(), EngineError>(
                EngineError::BindingsNotLoaded,
            ) && *final(self) == *old(self) && final(gpu).same_session(*old(gpu)),
            !old(self).initialized() && bindings_loaded ==> r is Ok && final(self).initialized()
                && final(self).dither_scale() == old(self).dither_scale() && final(self).shader_lightmap()
                == old(gpu).next_id() && final(self).shader_shadowmask() == old(gpu).next_id() + 1
                && final(self).fbo() == old(gpu).next_id() + 2 && final(self).vao_lights() == old(gpu).next_id() + 3 && final(self).vao_quad() == old(gpu).next_id() + 4 && final(self).abo_lights()
                == old(gpu).next_id() + 5 && final(self).abo_quad() == old(gpu).next_id() + 6
                && final(self).ebo() == old(gpu).next_id() + 7 && final(self).tex() == old(gpu).next_id()
                + 8 && final(self).uloc_view_projection() == old(gpu).next_id() + 9 && final(self).uloc_px_scale()
                == old(gpu).next_id() + 10 && final(self).uloc_lightmap_scale() == old(gpu).next_id()
                + 11 && final(gpu).next_id() == old(gpu).next_id() + 12 && final(gpu).trace() == old(gpu).trace() + light_init_cmds(old(gpu).next_id(), old(gpu).uploads().len() as int)
                && final(gpu).uploads() == old(gpu).uploads().push(
                words_bytes(screen_quad_words()),
            ).push(words_bytes(screen_quad_indices())) && final(gpu).glyph_uploads() == old(gpu).glyph_uploads(),
    {
        if self.initialized {
            return Ok(());
        }
        if !bindings_loaded {
            return Err(EngineError::BindingsNotLoaded);
        }
        self.setup_gpu(gpu);
        Ok(())
    }

    /// Initialize the pass: probe the binder guard, then provision both
    /// sub-passes' GPU objects.  Idempotent like `init_with`.
    pub fn init(&mut self, gpu: &mut Gpu) -> (r: Result<(), EngineError>)
        requires
            old(gpu).next_id() + 12 <= u64::MAX,
        ensures
            old(self).initialized() ==> r is Ok && *final(self) == *old(self) && final(gpu).same_session(
                *old(gpu),
            ),
            !old(self).initialized() && r is Ok ==> final(self).initialized() && final(gpu).trace()
                == old(gpu).trace() + light_init_cmds(
                old(gpu).next_id(),
                old(gpu).uploads().len() as int,
            ),
            !old(self).initialized() && r is Err ==> r == Err::<(), EngineError>(
                EngineError::BindingsNotLoaded,
            ) && *final(self) == *old(self) && final(gpu).same_session(*old(gpu)),
    {
        let loaded = gl_bindings_loaded();
        self.init_with(gpu, loaded)
    }

    /// Provision both sub-passes: build the two programs, create the lightmap
    /// framebuffer and its color texture, the light-records vertex array and
    /// dynamic buffer, and the screen quad's vertex array with its static
    /// vertex/index buffers, then resolve the cached uniform locations.
    fn setup_gpu(&mut self, gpu: &mut Gpu)
        requires
            !old(self).initialized(),
            old(gpu).next_id() + 12 <= u64::MAX,
        ensures
            final(self).initialized(),
            final(self).dither_scale() == old(self).dither_scale(),
            final(self).shader_lightmap() == old(gpu).next_id(),
            final(self).shader_shadowmask() == old(gpu).next_id() + 1,
            final(self).fbo() == old(gpu).next_id() + 2,
            final(self).vao_lights() == old(gpu).next_id() + 3,
            final(self).vao_quad() == old(gpu).next_id() + 4,
            final(self).abo_lights() == old(gpu).next_id() + 5,
            final(self).abo_quad() == old(gpu).next_id() + 6,
            final(self).ebo() == old(gpu).next_id() + 7,
            final(self).tex() == old(gpu).next_id() + 8,
            final(self).uloc_view_projection() == old(gpu).next_id() + 9,
            final(self).uloc_px_scale() == old(gpu).next_id() + 10,
            final(self).uloc_lightmap_scale() == old(gpu).next_id() + 11,
            final(gpu).next_id() == old(gpu).next_id() + 12,
            final(gpu).trace() == old(gpu).trace() + light_init_cmds(
                old(gpu).next_id(),
                old(gpu).uploads().len() as int,
            ),
            final(gpu).uploads() == old(gpu).uploads().push(words_bytes(screen_quad_words())).push(
                words_bytes(screen_quad_indices()),
            ),
            final(gpu).glyph_uploads() == old(gpu).glyph_uploads(),
    {
        let shader_lightmap = gpu.compile_program(ProgramKind::Lightmap);
        let shader_shadowmask = gpu.compile_program(ProgramKind::ShadowMask);
        let fbo = gpu.gen_framebuffer();
        let vao_lights = gpu.gen_vertex_array();
        let vao_quad = gpu.gen_vertex_array();
        let abo_lights = gpu.gen_buffer();
        let abo_quad = gpu.gen_buffer();
        let ebo = gpu.gen_buffer();
        let tex = gpu.gen_texture();

        gpu.bind_vertex_array(vao_lights);
        gpu.bind_buffer(BufferTarget::Array, abo_lights);
        gpu.bind_framebuffer(fbo);
        gpu.bind_texture(tex);
        gpu.tex_filter_nearest();
        gpu.tex_image_2d_null(LIGHTMAP_TEX_W, LIGHTMAP_TEX_H, PixelFormat::Rgb);
        gpu.framebuffer_texture(tex);

        let lattribs = light_attribs();
        let l0 = lattribs[0];
        gpu.enable_vertex_attrib(l0.index);
        gpu.vertex_attrib_pointer(l0.index, l0.size, l0.kind, LIGHT_STRIDE, l0.offset);
        let l1 = lattribs[1];
        gpu.enable_vertex_attrib(l1.index);
        gpu.vertex_attrib_pointer(l1.index, l1.size, l1.kind, LIGHT_STRIDE, l1.offset);

        gpu.bind_vertex_array(vao_quad);
        gpu.bind_buffer(BufferTarget::Array, abo_quad);
        gpu.bind_buffer(BufferTarget::ElementArray, ebo);
        gpu.enable_vertex_attrib(0);
        gpu.vertex_attrib_pointer(0, 2, AttribKind::Float, QUAD_STRIDE, 0);
        gpu.enable_vertex_attrib(1);
        gpu.vertex_attrib_pointer(1, 2, AttribKind::Float, QUAD_STRIDE, QUAD_UV_OFFSET);
        let quad = pack_screen_quad();
        gpu.buffer_data(BufferTarget::Array, quad, BufferUsage::StaticDraw);
        let indices = pack_quad_indices();
        gpu.buffer_data(BufferTarget::ElementArray, indices, BufferUsage::StaticDraw);

        let uloc_view_projection = gpu.get_uniform_location(
            shader_lightmap,
            UniformName::ViewProjection,
        );
        let uloc_px_scale = gpu.get_uniform_location(shader_lightmap, UniformName::PxScale);
        let uloc_lightmap_scale = gpu.get_uniform_location(
            shader_shadowmask,
            UniformName::LightmapScale,
        );

        gpu.bind_texture(0);
        gpu.bind_framebuffer(0);
        gpu.bind_buffer(BufferTarget::Array, 0);
        gpu.bind_buffer(BufferTarget::ElementArray, 0);
        gpu.bind_vertex_array(0);
        gpu.use_program(0);

        self.initialized = true;
        self.fbo = fbo;
        self.shader_lightmap = shader_lightmap;
        self.shader_shadowmask = shader_shadowmask;
        self.vao_lights = vao_lights;
        self.vao_quad = vao_quad;
        self.abo_lights = abo_lights;
        self.abo_quad = abo_quad;
        self.ebo = ebo;
        self.tex = tex;
        self.uloc_view_projection = uloc_view_projection;
        self.uloc_px_scale = uloc_px_scale;
        self.uloc_lightmap_scale = uloc_lightmap_scale;

        proof {
            assert(gpu.trace() =~= old(gpu).trace() + light_init_cmds(
                old(gpu).next_id(),
                old(gpu).uploads().len() as int,
            ));
        }
    }

    /// Render the frame's lighting: a silent no-op before a successful
    /// `init`.  Otherwise runs the two sub-passes in their fixed order: the
    /// lightmap is cleared and every light accumulated additively at the
    /// downsampled viewport `(width / dither_scale, height / dither_scale)`,
    /// the full viewport `(width, height)` is restored exactly, and the
    /// shadow mask is composited over the screen from the lightmap.  Pipeline
    /// binding state does not survive the call.
    pub fn render(&self, gpu: &mut Gpu, lights: &Vec<RenderLight>, width: u32, height: u32)
        requires
            self.wf(),
        ensures
            !self.initialized() ==> final(gpu).same_session(*old(gpu)),
            self.initialized() ==> final(gpu).next_id() == old(gpu).next_id() && final(gpu).trace()
                == old(gpu).trace() + light_render_cmds(
                *self,
                lights@.len() as usize,
                width,
                height,
                old(gpu).uploads().len() as int,
            ) && final(gpu).uploads() == old(gpu).uploads().push(lights_bytes(lights@)) && final(gpu).glyph_uploads() == old(gpu).glyph_uploads(),
    {
        if !self.initialized {
            return;
        }
        gpu.disable(Capability::DepthTest);

        gpu.use_program(self.shader_lightmap);
        gpu.bind_framebuffer(self.fbo);
        gpu.bind_texture(self.tex);
        gpu.bind_vertex_array(self.vao_lights);
        gpu.bind_buffer(BufferTarget::Array, self.abo_lights);
        gpu.clear(true, false);
        gpu.blend_func(BlendFactor::One, BlendFactor::One);

        let down_w = width / self.dither_scale;
        let down_h = height / self.dither_scale;
        gpu.viewport(0, 0, down_w, down_h);
        gpu.uniform_ortho_from_size(self.uloc_view_projection, down_w, down_h);
        gpu.uniform_1i_as_float(self.uloc_px_scale, self.dither_scale);

        let n = lights.len();
        let data = pack_lights(lights);
        gpu.buffer_data(BufferTarget::Array, data, BufferUsage::DynamicDraw);
        gpu.draw_arrays(DrawMode::Points, 0, n);

        gpu.blend_func(BlendFactor::SrcAlpha, BlendFactor::OneMinusSrcAlpha);
        gpu.bind_framebuffer(0);
        gpu.bind_buffer(BufferTarget::Array, 0);
        gpu.viewport(0, 0, width, height);

        gpu.blend_func_separate(
            BlendFactor::SrcAlpha,
            BlendFactor::OneMinusSrcAlpha,
            BlendFactor::One,
            BlendFactor::One,
        );
        gpu.use_program(self.shader_shadowmask);
        gpu.bind_vertex_array(self.vao_quad);
        gpu.bind_buffer(BufferTarget::Array, self.abo_quad);
        gpu.bind_buffer(BufferTarget::ElementArray, self.ebo);
        gpu.bind_texture(self.tex);
        gpu.uniform_1i_as_float(self.uloc_lightmap_scale, self.dither_scale);
        gpu.draw_elements(DrawMode::Triangles, QUAD_INDEX_COUNT);

        gpu.bind_texture(0);
        gpu.bind_vertex_array(0);
        gpu.use_program(0);

        proof {
            assert(gpu.trace() =~= old(gpu).trace() + light_render_cmds(
                *self,
                lights@.len() as usize,
                width,
                height,
                old(gpu).uploads().len() as int,
            ));
        }
    }
}

/// Law: during lightmap accumulation the viewport is exactly the screen size
/// divided (with truncation) by the dither scale, it is restored exactly to
/// the full screen afterwards, and no other viewport change happens in the
/// pass.
pub proof fn lemma_light_render_viewport(
    r: LightRenderer,
    n: usize,
    width: u32,
    height: u32,
    data_idx: int,
)
    requires
        r.wf(),
    ensures
        light_render_cmds(r, n, width, height, data_idx).len() == 28,
        light_render_cmds(r, n, width, height, data_idx)[8] == (GpuCmd::Viewport {
            x: 0,
            y: 0,
            width: (width / r.dither_scale()) as u32,
            height: (height / r.dither_scale()) as u32,
        }),
        light_render_cmds(r, n, width, height, data_idx)[16] == (GpuCmd::Viewport {
            x: 0,
            y: 0,
            width,
            height,
        }),
        forall|i: int|
            0 <= i < 28 && i != 8 && i != 16 ==> !(#[trigger] light_render_cmds(
                r,
                n,
                width,
                height,
                data_idx,
            )[i] is Viewport),
{
}

/// Law: the accumulation sub-pass runs whatever the light count, clearing the
/// off-screen target and drawing one point per light (a zero-light frame
/// still clears and draws an empty batch), and the mask sub-pass always
/// composites the one full-screen quad; the pass issues exactly those two
/// draw calls.
pub proof fn lemma_light_render_structure(
    r: LightRenderer,
    n: usize,
    width: u32,
    height: u32,
    data_idx: int,
)
    ensures
        light_render_cmds(r, n, width, height, data_idx).len() == 28,
        light_render_cmds(r, n, width, height, data_idx)[6] == (GpuCmd::Clear {
            color: true,
            depth: false,
        }),
        light_render_cmds(r, n, width, height, data_idx)[12] == (GpuCmd::DrawArrays {
            mode: DrawMode::Points,
            first: 0,
            count: n,
        }),
        light_render_cmds(r, n, width, height, data_idx)[24] == (GpuCmd::DrawElements {
            mode: DrawMode::Triangles,
            count: QUAD_INDEX_COUNT,
        }),
        forall|i: int|
            0 <= i < 28 && i != 12 && i != 24 ==> !crate::gpu::is_draw_cmd(
                #[trigger] light_render_cmds(r, n, width, height, data_idx)[i],
            ),
{
}

} // verus!
