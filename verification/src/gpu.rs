//! Explicit GPU resource and command model.
//!
//! Every render pass works against a [`Gpu`] value instead of ambient global
//! graphics state: resource creation hands out fresh model handles, and every
//! state change or draw is appended to an inspectable command trace.  An
//! unverified executor replays the trace against the real graphics API,
//! mapping model handles to real object names.

use vstd::prelude::*;

verus! {

/// Which linked shader program a `CompileProgram` command stands for.  The
/// executor owns the GLSL sources; the model identifies programs by role.
#[derive(Clone, Copy, Debug, PartialEq, Eq, Structural)]
pub enum ProgramKind {
    /// Sprite pass: vertex + fragment + geometry stage.
    Sprite,
    /// Lightmap accumulation sub-pass: vertex + fragment + geometry stage.
    Lightmap,
    /// Shadow-mask compositing sub-pass: vertex + fragment stage.
    ShadowMask,
    /// Text pass: vertex + fragment + geometry stage.
    Text,
}

/// Named shader uniforms; the names are part of the shader interface.
#[derive(Clone, Copy, Debug, PartialEq, Eq, Structural)]
pub enum UniformName {
    /// `view_projection`: 4x4 orthographic view-projection matrix.
    ViewProjection,
    /// `sheet_width`: atlas sheet width in tiles.
    SheetWidth,
    /// `sheet_tile_w`: atlas tile width in pixels.
    SheetTileW,
    /// `px_scale`: lightmap downsample factor, as a float.
    PxScale,
    /// `lightmap_scale`: lightmap-to-screen scale, as a float.
    LightmapScale,
}

/// Buffer binding targets.
#[derive(Clone, Copy, Debug, PartialEq, Eq, Structural)]
pub enum BufferTarget {
    Array,
    ElementArray,
}

/// Buffer usage hints.
#[derive(Clone, Copy, Debug, PartialEq, Eq, Structural)]
pub enum BufferUsage {
    StaticDraw,
    DynamicDraw,
}

/// Texel layouts for texture storage.
#[derive(Clone, Copy, Debug, PartialEq, Eq, Structural)]
pub enum PixelFormat {
    Rgb,
    Rgba,
}

/// Primitive assembly modes.
#[derive(Clone, Copy, Debug, PartialEq, Eq, Structural)]
pub enum DrawMode {
    Points,
    Triangles,
}

/// Blend factors.
#[derive(Clone, Copy, Debug, PartialEq, Eq, Structural)]
pub enum BlendFactor {
    One,
    SrcAlpha,
    OneMinusSrcAlpha,
}

/// Per-vertex attribute component types.
#[derive(Clone, Copy, Debug, PartialEq, Eq, Structural)]
pub enum AttribKind {
    /// 32-bit float components.
    Float,
    /// 32-bit unsigned integer components.
    UInt,
}

/// Pipeline capabilities toggled by `Enable` / `Disable`.
#[derive(Clone, Copy, Debug, PartialEq, Eq, Structural)]
pub enum Capability {
    DepthTest,
}

/// Orthographic view bounds, each an `f32` bit pattern.  The executor turns
/// these into the 4x4 `view_projection` matrix.
#[derive(Clone, Copy, Debug, PartialEq, Eq, Structural)]
pub struct OrthoView {
    pub left: u32,
    pub right: u32,
    pub bottom: u32,
    pub top: u32,
    pub near: u32,
    pub far: u32,
}

/// One GPU command.  Handle 0 is the unbind sentinel; all other handles come
/// from the model's allocation counter.  Bulk data lives in the [`Gpu`]
/// upload lists and is referred to by index, so commands stay plain values.
#[derive(Clone, Copy, Debug, PartialEq, Eq, Structural)]
pub enum GpuCmd {
    GenVertexArray { vao: u64 },
    GenBuffer { buf: u64 },
    GenTexture { tex: u64 },
    GenFramebuffer { fbo: u64 },
    /// Compile and link the program for `kind`; the model assumes success,
    /// the executor surfaces a build error if a stage fails.
    CompileProgram { program: u64, kind: ProgramKind },
    GetUniformLocation { program: u64, name: UniformName, loc: u64 },
    BindVertexArray { vao: u64 },
    BindBuffer { target: BufferTarget, buf: u64 },
    BindTexture { tex: u64 },
    BindFramebuffer { fbo: u64 },
    UseProgram { program: u64 },
    /// Nearest-neighbor min/mag filtering for the bound texture.
    TexFilterNearest,
    /// Allocate texture storage without image data.
    TexImage2dNull { width: u32, height: u32, format: PixelFormat },
    /// Upload texture storage from `uploads[data_idx]`.
    TexImage2d { width: u32, height: u32, format: PixelFormat, data_idx: usize },
    /// Attach the texture to the bound framebuffer's color attachment.
    FramebufferTexture { tex: u64 },
    EnableVertexAttrib { index: u32 },
    VertexAttribPointer { index: u32, size: u32, kind: AttribKind, stride: u32, offset: u32 },
    /// Replace the bound buffer's store with `uploads[data_idx]`.
    BufferData { target: BufferTarget, data_idx: usize, usage: BufferUsage },
    /// Replace the bound buffer's store with `glyph_uploads[data_idx]`.
    BufferGlyphData { data_idx: usize },
    Enable { cap: Capability },
    Disable { cap: Capability },
    Clear { color: bool, depth: bool },
    BlendFunc { src: BlendFactor, dst: BlendFactor },
    BlendFuncSeparate {
        src_rgb: BlendFactor,
        dst_rgb: BlendFactor,
        src_alpha: BlendFactor,
        dst_alpha: BlendFactor,
    },
    Viewport { x: u32, y: u32, width: u32, height: u32 },
    /// Set `view_projection` from explicit orthographic bounds.
    UniformOrtho { loc: u64, view: OrthoView },
    /// Set `view_projection` to an orthographic projection over a
    /// `width` x `height` pixel area (left 0, bottom 0, near -1, far 1).
    UniformOrthoFromSize { loc: u64, width: u32, height: u32 },
    Uniform1i { loc: u64, value: i32 },
    /// Set a float uniform to the exact float value of an unsigned integer.
    Uniform1iAsFloat { loc: u64, value: u32 },
    DrawArrays { mode: DrawMode, first: usize, count: usize },
    DrawElements { mode: DrawMode, count: usize },
}

/// Whether a command makes the GPU draw, rather than bind, upload or set
/// state.
pub open spec fn is_draw_cmd(c: GpuCmd) -> bool {
    c is DrawArrays || c is DrawElements
}

/// An RGBA color, each channel an `f32` bit pattern.
#[derive(Clone, Copy, Debug, PartialEq, Eq, Structural)]
pub struct ColorBits {
    pub r: u32,
    pub g: u32,
    pub b: u32,
    pub a: u32,
}

/// One glyph quad produced by the text pass, in screen pixels.
#[derive(Clone, Copy, Debug, PartialEq, Eq, Structural)]
pub struct RenderGlyph {
    /// Screen-space x of the glyph's anchor, in pixels.
    pub x: u32,
    /// Screen-space y of the glyph's anchor, in pixels.
    pub y: u32,
    /// Edge length of the glyph quad, in pixels.
    pub size: u32,
    /// Text color.
    pub color: ColorBits,
    /// Index of the glyph's tile in the font atlas.
    pub glyph_id: u8,
}

/// The GPU model: a fresh-handle allocator, the command trace of the current
/// frame, and the bulk data the commands refer to.
pub struct Gpu {
    /// Next unallocated model handle; handle 0 is the unbind sentinel.
    next_id: u64,
    /// Commands issued so far, in order.
    trace: Vec<GpuCmd>,
    /// Byte payloads for `TexImage2d` and `BufferData`.
    uploads: Vec<Vec<u8>>,
    /// Glyph payloads for `BufferGlyphData`.
    glyph_uploads: Vec<Vec<RenderGlyph>>,
}

impl Gpu {
    /// The next handle the allocator will hand out.
    pub closed spec fn next_id(self) -> u64 {
        self.next_id
    }

    /// The command trace issued so far.
    pub closed spec fn trace(self) -> Seq<GpuCmd> {
        self.trace@
    }

    /// Byte payloads referred to by `data_idx` fields.
    pub closed spec fn uploads(self) -> Seq<Seq<u8>> {
        self.uploads@.map_values(|v: Vec<u8>| v@)
    }

    /// Glyph payloads referred to by `BufferGlyphData`.
    pub closed spec fn glyph_uploads(self) -> Seq<Seq<RenderGlyph>> {
        self.glyph_uploads@.map_values(|v: Vec<RenderGlyph>| v@)
    }

    /// Everything except the allocation counter, for framing what a
    /// read-only pass leaves untouched.
    pub open spec fn same_session(self, other: Gpu) -> bool {
        self.next_id() == other.next_id()
            && self.trace() == other.trace()
            && self.uploads() == other.uploads()
            && self.glyph_uploads() == other.glyph_uploads()
    }

    pub fn new() -> (g: Gpu)
        ensures
            g.next_id() == 1,
            g.trace() == Seq::<GpuCmd>::empty(),
            g.uploads() == Seq::<Seq<u8>>::empty(),
            g.glyph_uploads() == Seq::<Seq<RenderGlyph>>::empty(),
    {
        let g = Gpu { next_id: 1, trace: Vec::new(), uploads: Vec::new(), glyph_uploads: Vec::new() };
        proof {
            assert(g.uploads() =~= Seq::<Seq<u8>>::empty());
            assert(g.glyph_uploads() =~= Seq::<Seq<RenderGlyph>>::empty());
        }
        g
    }

    /// The number of commands issued so far; exposed for tests and drivers.
    pub fn trace_len(&self) -> (n: usize)
        ensures
            n == self.trace().len(),
    {
        self.trace.len()
    }

    /// The `i`th issued command; exposed for the executor and tests.
    pub fn trace_at(&self, i: usize) -> (c: GpuCmd)
        requires
            i < self.trace().len(),
        ensures
            c == self.trace()[i as int],
    {
        self.trace[i]
    }

    /// A clone of the `i`th byte payload; exposed for the executor and tests.
    pub fn upload_at(&self, i: usize) -> (d: Vec<u8>)
        requires
            i < self.uploads().len(),
        ensures
            d@ == self.uploads()[i as int],
    {
        let d = &self.uploads[i];
        d.clone()
    }

    /// A clone of the `i`th glyph payload; exposed for the executor and tests.
    pub fn glyph_upload_at(&self, i: usize) -> (d: Vec<RenderGlyph>)
        requires
            i < self.glyph_uploads().len(),
        ensures
            d@ == self.glyph_uploads()[i as int],
    {
        let d = &self.glyph_uploads[i];
        d.clone()
    }

    /// Append one command that carries no bulk data.
    fn push_cmd(&mut self, c: GpuCmd)
        ensures
            final(self).next_id() == old(self).next_id(),
            final(self).trace() == old(self).trace().push(c),
            final(self).uploads() == old(self).uploads(),
            final(self).glyph_uploads() == old(self).glyph_uploads(),
    {
        self.trace.push(c);
    }

    /// Allocate a fresh model handle.
    fn fresh_id(&mut self) -> (h: u64)
        requires
            old(self).next_id() < u64::MAX,
        ensures
            h == old(self).next_id(),
            final(self).next_id() == old(self).next_id() + 1,
            final(self).trace() == old(self).trace(),
            final(self).uploads() == old(self).uploads(),
            final(self).glyph_uploads() == old(self).glyph_uploads(),
    {
        let h = self.next_id;
        self.next_id = self.next_id + 1;
        h
    }

    pub fn gen_vertex_array(&mut self) -> (h: u64)
        requires
            old(self).next_id() < u64::MAX,
        ensures
            h == old(self).next_id(),
            final(self).next_id() == old(self).next_id() + 1,
            final(self).trace() == old(self).trace().push(GpuCmd::GenVertexArray { vao: h }),
            final(self).uploads() == old(self).uploads(),
            final(self).glyph_uploads() == old(self).glyph_uploads(),
    {
        let h = self.fresh_id();
        self.push_cmd(GpuCmd::GenVertexArray { vao: h });
        h
    }

    pub fn gen_buffer(&mut self) -> (h: u64)
        requires
            old(self).next_id() < u64::MAX,
        ensures
            h == old(self).next_id(),
            final(self).next_id() == old(self).next_id() + 1,
            final(self).trace() == old(self).trace().push(GpuCmd::GenBuffer { buf: h }),
            final(self).uploads() == old(self).uploads(),
            final(self).glyph_uploads() == old(self).glyph_uploads(),
    {
        let h = self.fresh_id();
        self.push_cmd(GpuCmd::GenBuffer { buf: h });
        h
    }

    pub fn gen_texture(&mut self) -> (h: u64)
        requires
            old(self).next_id() < u64::MAX,
        ensures
            h == old(self).next_id(),
            final(self).next_id() == old(self).next_id() + 1,
            final(self).trace() == old(self).trace().push(GpuCmd::GenTexture { tex: h }),
            final(self).uploads() == old(self).uploads(),
            final(self).glyph_uploads() == old(self).glyph_uploads(),
    {
        let h = self.fresh_id();
        self.push_cmd(GpuCmd::GenTexture { tex: h });
        h
    }

    pub fn gen_framebuffer(&mut self) -> (h: u64)
        requires
            old(self).next_id() < u64::MAX,
        ensures
            h == old(self).next_id(),
            final(self).next_id() == old(self).next_id() + 1,
            final(self).trace() == old(self).trace().push(GpuCmd::GenFramebuffer { fbo: h }),
            final(self).uploads() == old(self).uploads(),
            final(self).glyph_uploads() == old(self).glyph_uploads(),
    {
        let h = self.fresh_id();
        self.push_cmd(GpuCmd::GenFramebuffer { fbo: h });
        h
    }

    pub fn compile_program(&mut self, kind: ProgramKind) -> (h: u64)
        requires
            old(self).next_id() < u64::MAX,
        ensures
            h == old(self).next_id(),
            final(self).next_id() == old(self).next_id() + 1,
            final(self).trace() == old(self).trace().push(GpuCmd::CompileProgram { program: h, kind }),
            final(self).uploads() == old(self).uploads(),
            final(self).glyph_uploads() == old(self).glyph_uploads(),
    {
        let h = self.fresh_id();
        self.push_cmd(GpuCmd::CompileProgram { program: h, kind });
        h
    }

    pub fn get_uniform_location(&mut self, program: u64, name: UniformName) -> (h: u64)
        requires
            old(self).next_id() < u64::MAX,
        ensures
            h == old(self).next_id(),
            final(self).next_id() == old(self).next_id() + 1,
            final(self).trace() == old(self).trace().push(
                GpuCmd::GetUniformLocation { program, name, loc: h },
            ),
            final(self).uploads() == old(self).uploads(),
            final(self).glyph_uploads() == old(self).glyph_uploads(),
    {
        let h = self.fresh_id();
        self.push_cmd(GpuCmd::GetUniformLocation { program, name, loc: h });
        h
    }

    pub fn bind_vertex_array(&mut self, vao: u64)
        ensures
            final(self).next_id() == old(self).next_id(),
            final(self).trace() == old(self).trace().push(GpuCmd::BindVertexArray { vao }),
            final(self).uploads() == old(self).uploads(),
            final(self).glyph_uploads() == old(self).glyph_uploads(),
    {
        self.push_cmd(GpuCmd::BindVertexArray { vao });
    }

    pub fn bind_buffer(&mut self, target: BufferTarget, buf: u64)
        ensures
            final(self).next_id() == old(self).next_id(),
            final(self).trace() == old(self).trace().push(GpuCmd::BindBuffer { target, buf }),
            final(self).uploads() == old(self).uploads(),
            final(self).glyph_uploads() == old(self).glyph_uploads(),
    {
        self.push_cmd(GpuCmd::BindBuffer { target, buf });
    }

    pub fn bind_texture(&mut self, tex: u64)
        ensures
            final(self).next_id() == old(self).next_id(),
            final(self).trace() == old(self).trace().push(GpuCmd::BindTexture { tex }),
            final(self).uploads() == old(self).uploads(),
            final(self).glyph_uploads() == old(self).glyph_uploads(),
    {
        self.push_cmd(GpuCmd::BindTexture { tex });
    }

    pub fn bind_framebuffer(&mut self, fbo: u64)
        ensures
            final(self).next_id() == old(self).next_id(),
            final(self).trace() == old(self).trace().push(GpuCmd::BindFramebuffer { fbo }),
            final(self).uploads() == old(self).uploads(),
            final(self).glyph_uploads() == old(self).glyph_uploads(),
    {
        self.push_cmd(GpuCmd::BindFramebuffer { fbo });
    }

    pub fn use_program(&mut self, program: u64)
        ensures
            final(self).next_id() == old(self).next_id(),
            final(self).trace() == old(self).trace().push(GpuCmd::UseProgram { program }),
            final(self).uploads() == old(self).uploads(),
            final(self).glyph_uploads() == old(self).glyph_uploads(),
    {
        self.push_cmd(GpuCmd::UseProgram { program });
    }

    pub fn tex_filter_nearest(&mut self)
        ensures
            final(self).next_id() == old(self).next_id(),
            final(self).trace() == old(self).trace().push(GpuCmd::TexFilterNearest),
            final(self).uploads() == old(self).uploads(),
            final(self).glyph_uploads() == old(self).glyph_uploads(),
    {
        self.push_cmd(GpuCmd::TexFilterNearest);
    }

    pub fn tex_image_2d_null(&mut self, width: u32, height: u32, format: PixelFormat)
        ensures
            final(self).next_id() == old(self).next_id(),
            final(self).trace() == old(self).trace().push(
                GpuCmd::TexImage2dNull { width, height, format },
            ),
            final(self).uploads() == old(self).uploads(),
            final(self).glyph_uploads() == old(self).glyph_uploads(),
    {
        self.push_cmd(GpuCmd::TexImage2dNull { width, height, format });
    }

    pub fn tex_image_2d(&mut self, width: u32, height: u32, format: PixelFormat, data: Vec<u8>)
        ensures
            final(self).next_id() == old(self).next_id(),
            final(self).trace() == old(self).trace().push(
                GpuCmd::TexImage2d {
                    width,
                    height,
                    format,
                    data_idx: old(self).uploads().len() as usize,
                },
            ),
            final(self).uploads() == old(self).uploads().push(data@),
            final(self).glyph_uploads() == old(self).glyph_uploads(),
    {
        let data_idx = self.uploads.len();
        let ghost pre = self.uploads@;
        self.uploads.push(data);
        proof {
            assert(self.uploads() =~= old(self).uploads().push(self.uploads@[pre.len() as int]@));
        }
        self.push_cmd(GpuCmd::TexImage2d { width, height, format, data_idx });
    }

    pub fn framebuffer_texture(&mut self, tex: u64)
        ensures
            final(self).next_id() == old(self).next_id(),
            final(self).trace() == old(self).trace().push(GpuCmd::FramebufferTexture { tex }),
            final(self).uploads() == old(self).uploads(),
            final(self).glyph_uploads() == old(self).glyph_uploads(),
    {
        self.push_cmd(GpuCmd::FramebufferTexture { tex });
    }

    pub fn enable_vertex_attrib(&mut self, index: u32)
        ensures
            final(self).next_id() == old(self).next_id(),
            final(self).trace() == old(self).trace().push(GpuCmd::EnableVertexAttrib { index }),
            final(self).uploads() == old(self).uploads(),
            final(self).glyph_uploads() == old(self).glyph_uploads(),
    {
        self.push_cmd(GpuCmd::EnableVertexAttrib { index });
    }

    pub fn vertex_attrib_pointer(
        &mut self,
        index: u32,
        size: u32,
        kind: AttribKind,
        stride: u32,
        offset: u32,
    )
        ensures
            final(self).next_id() == old(self).next_id(),
            final(self).trace() == old(self).trace().push(
                GpuCmd::VertexAttribPointer { index, size, kind, stride, offset },
            ),
            final(self).uploads() == old(self).uploads(),
            final(self).glyph_uploads() == old(self).glyph_uploads(),
    {
        self.push_cmd(GpuCmd::VertexAttribPointer { index, size, kind, stride, offset });
    }

    pub fn buffer_data(&mut self, target: BufferTarget, data: Vec<u8>, usage: BufferUsage)
        ensures
            final(self).next_id() == old(self).next_id(),
            final(self).trace() == old(self).trace().push(
                GpuCmd::BufferData { target, data_idx: old(self).uploads().len() as usize, usage },
            ),
            final(self).uploads() == old(self).uploads().push(data@),
            final(self).glyph_uploads() == old(self).glyph_uploads(),
    {
        let data_idx = self.uploads.len();
        let ghost pre = self.uploads@;
        self.uploads.push(data);
        proof {
            assert(self.uploads() =~= old(self).uploads().push(self.uploads@[pre.len() as int]@));
        }
        self.push_cmd(GpuCmd::BufferData { target, data_idx, usage });
    }

    pub fn buffer_glyph_data(&mut self, data: Vec<RenderGlyph>)
        ensures
            final(self).next_id() == old(self).next_id(),
            final(self).trace() == old(self).trace().push(
                GpuCmd::BufferGlyphData { data_idx: old(self).glyph_uploads().len() as usize },
            ),
            final(self).uploads() == old(self).uploads(),
            final(self).glyph_uploads() == old(self).glyph_uploads().push(data@),
    {
        let data_idx = self.glyph_uploads.len();
        let ghost pre = self.glyph_uploads@;
        self.glyph_uploads.push(data);
        proof {
            assert(self.glyph_uploads() =~= old(self).glyph_uploads().push(
                self.glyph_uploads@[pre.len() as int]@,
            ));
        }
        self.push_cmd(GpuCmd::BufferGlyphData { data_idx });
    }

    pub fn enable(&mut self, cap: Capability)
        ensures
            final(self).next_id() == old(self).next_id(),
            final(self).trace() == old(self).trace().push(GpuCmd::Enable { cap }),
            final(self).uploads() == old(self).uploads(),
            final(self).glyph_uploads() == old(self).glyph_uploads(),
    {
        self.push_cmd(GpuCmd::Enable { cap });
    }

    pub fn disable(&mut self, cap: Capability)
        ensures
            final(self).next_id() == old(self).next_id(),
            final(self).trace() == old(self).trace().push(GpuCmd::Disable { cap }),
            final(self).uploads() == old(self).uploads(),
            final(self).glyph_uploads() == old(self).glyph_uploads(),
    {
        self.push_cmd(GpuCmd::Disable { cap });
    }

    pub fn clear(&mut self, color: bool, depth: bool)
        ensures
            final(self).next_id() == old(self).next_id(),
            final(self).trace() == old(self).trace().push(GpuCmd::Clear { color, depth }),
            final(self).uploads() == old(self).uploads(),
            final(self).glyph_uploads() == old(self).glyph_uploads(),
    {
        self.push_cmd(GpuCmd::Clear { color, depth });
    }

    pub fn blend_func(&mut self, src: BlendFactor, dst: BlendFactor)
        ensures
            final(self).next_id() == old(self).next_id(),
            final(self).trace() == old(self).trace().push(GpuCmd::BlendFunc { src, dst }),
            final(self).uploads() == old(self).uploads(),
            final(self).glyph_uploads() == old(self).glyph_uploads(),
    {
        self.push_cmd(GpuCmd::BlendFunc { src, dst });
    }

    pub fn blend_func_separate(
        &mut self,
        src_rgb: BlendFactor,
        dst_rgb: BlendFactor,
        src_alpha: BlendFactor,
        dst_alpha: BlendFactor,
    )
        ensures
            final(self).next_id() == old(self).next_id(),
            final(self).trace() == old(self).trace().push(
                GpuCmd::BlendFuncSeparate { src_rgb, dst_rgb, src_alpha, dst_alpha },
            ),
            final(self).uploads() == old(self).uploads(),
            final(self).glyph_uploads() == old(self).glyph_uploads(),
    {
        self.push_cmd(GpuCmd::BlendFuncSeparate { src_rgb, dst_rgb, src_alpha, dst_alpha });
    }

    pub fn viewport(&mut self, x: u32, y: u32, width: u32, height: u32)
        ensures
            final(self).next_id() == old(self).next_id(),
            final(self).trace() == old(self).trace().push(GpuCmd::Viewport { x, y, width, height }),
            final(self).uploads() == old(self).uploads(),
            final(self).glyph_uploads() == old(self).glyph_uploads(),
    {
        self.push_cmd(GpuCmd::Viewport { x, y, width, height });
    }

    pub fn uniform_ortho(&mut self, loc: u64, view: OrthoView)
        ensures
            final(self).next_id() == old(self).next_id(),
            final(self).trace() == old(self).trace().push(GpuCmd::UniformOrtho { loc, view }),
            final(self).uploads() == old(self).uploads(),
            final(self).glyph_uploads() == old(self).glyph_uploads(),
    {
        self.push_cmd(GpuCmd::UniformOrtho { loc, view });
    }

    pub fn uniform_ortho_from_size(&mut self, loc: u64, width: u32, height: u32)
        ensures
            final(self).next_id() == old(self).next_id(),
            final(self).trace() == old(self).trace().push(
                GpuCmd::UniformOrthoFromSize { loc, width, height },
            ),
            final(self).uploads() == old(self).uploads(),
            final(self).glyph_uploads() == old(self).glyph_uploads(),
    {
        self.push_cmd(GpuCmd::UniformOrthoFromSize { loc, width, height });
    }

    pub fn uniform_1i(&mut self, loc: u64, value: i32)
        ensures
            final(self).next_id() == old(self).next_id(),
            final(self).trace() == old(self).trace().push(GpuCmd::Uniform1i { loc, value }),
            final(self).uploads() == old(self).uploads(),
            final(self).glyph_uploads() == old(self).glyph_uploads(),
    {
        self.push_cmd(GpuCmd::Uniform1i { loc, value });
    }

    pub fn uniform_1i_as_float(&mut self, loc: u64, value: u32)
        ensures
            final(self).next_id() == old(self).next_id(),
            final(self).trace() == old(self).trace().push(GpuCmd::Uniform1iAsFloat { loc, value }),
            final(self).uploads() == old(self).uploads(),
            final(self).glyph_uploads() == old(self).glyph_uploads(),
    {
        self.push_cmd(GpuCmd::Uniform1iAsFloat { loc, value });
    }

    pub fn draw_arrays(&mut self, mode: DrawMode, first: usize, count: usize)
        ensures
            final(self).next_id() == old(self).next_id(),
            final(self).trace() == old(self).trace().push(GpuCmd::DrawArrays { mode, first, count }),
            final(self).uploads() == old(self).uploads(),
            final(self).glyph_uploads() == old(self).glyph_uploads(),
    {
        self.push_cmd(GpuCmd::DrawArrays { mode, first, count });
    }

    pub fn draw_elements(&mut self, mode: DrawMode, count: usize)
        ensures
            final(self).next_id() == old(self).next_id(),
            final(self).trace() == old(self).trace().push(GpuCmd::DrawElements { mode, count }),
            final(self).uploads() == old(self).uploads(),
            final(self).glyph_uploads() == old(self).glyph_uploads(),
    {
        self.push_cmd(GpuCmd::DrawElements { mode, count });
    }
}

} // verus!
