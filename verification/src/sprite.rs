//! Sprite pass: instanced point-based rendering of atlas-indexed sprites.
//!
//! One point-vertex per sprite is uploaded each frame; the geometry stage
//! expands each point into a textured quad sampling the sprite's atlas cell.

use vstd::prelude::*;

use crate::bind::gl_bindings_loaded;
use crate::error::EngineError;
use crate::gpu::AttribKind;
use crate::gpu::BufferTarget;
use crate::gpu::BufferUsage;
use crate::gpu::Capability;
use crate::gpu::DrawMode;
use crate::gpu::Gpu;
use crate::gpu::GpuCmd;
use crate::gpu::OrthoView;
use crate::gpu::PixelFormat;
use crate::gpu::ProgramKind;
use crate::gpu::UniformName;
use crate::image::check_rgba;
use crate::image::rgba_accepted;
use crate::image::rgba_rejection;
use crate::image::DecodedImage;
use crate::records::pack_sprites;
use crate::records::sprite_attribs;
use crate::records::sprites_bytes;
use crate::records::RenderSprite;
use crate::records::SPRITE_STRIDE;

verus! {

/// Atlas sheet width in tiles, the `sheet_width` uniform.
pub const SHEET_WIDTH_TILES: i32 = 256;

/// Atlas tile width in pixels, the `sheet_tile_w` uniform.
pub const SHEET_TILE_W_PX: i32 = 32;

/// The sprite pass renderer.  Constructed uninitialized; `init` moves it to
/// the ready state once and is a no-op afterwards; `render` before a
/// successful `init` silently draws nothing.
pub struct SpriteRenderer {
    initialized: bool,
    shader: u64,
    vao: u64,
    abo: u64,
    tex: u64,
    uloc_view_projection: u64,
    uloc_sheet_width: u64,
    uloc_sheet_tile_w: u64,
}

/// The exact commands of a successful sprite initialization, given the first
/// fresh model handle `base` and the atlas dimensions; the atlas pixels are
/// upload `data_idx`.
pub open spec fn sprite_init_cmds(base: u64, width: u32, height: u32, data_idx: int) -> Seq<
    GpuCmd,
> {
    seq![
        GpuCmd::CompileProgram { program: base, kind: ProgramKind::Sprite },
        GpuCmd::GenVertexArray { vao: (base + 1) as u64 },
        GpuCmd::GenBuffer { buf: (base + 2) as u64 },
        GpuCmd::GenTexture { tex: (base + 3) as u64 },
        GpuCmd::BindVertexArray { vao: (base + 1) as u64 },
        GpuCmd::BindTexture { tex: (base + 3) as u64 },
        GpuCmd::TexFilterNearest,
        GpuCmd::TexImage2d { width, height, format: PixelFormat::Rgba, data_idx: data_idx as usize },
        GpuCmd::BindBuffer { target: BufferTarget::Array, buf: (base + 2) as u64 },
        GpuCmd::EnableVertexAttrib { index: 0 },
        GpuCmd::VertexAttribPointer {
            index: 0,
            size: 3,
            kind: AttribKind::Float,
            stride: SPRITE_STRIDE,
            offset: 0,
        },
        GpuCmd::EnableVertexAttrib { index: 1 },
        GpuCmd::VertexAttribPointer {
            index: 1,
            size: 2,
            kind: AttribKind::Float,
            stride: SPRITE_STRIDE,
            offset: 12,
        },
        GpuCmd::EnableVertexAttrib { index: 2 },
        GpuCmd::VertexAttribPointer {
            index: 2,
            size: 1,
            kind: AttribKind::Float,
            stride: SPRITE_STRIDE,
            offset: 20,
        },
        GpuCmd::EnableVertexAttrib { index: 3 },
        GpuCmd::VertexAttribPointer {
            index: 3,
            size: 4,
            kind: AttribKind::Float,
            stride: SPRITE_STRIDE,
            offset: 24,
        },
        GpuCmd::EnableVertexAttrib { index: 4 },
        GpuCmd::VertexAttribPointer {
            index: 4,
            size: 1,
            kind: AttribKind::UInt,
            stride: SPRITE_STRIDE,
            offset: 40,
        },
        GpuCmd::GetUniformLocation {
            program: base,
            name: UniformName::ViewProjection,
            loc: (base + 4) as u64,
        },
        GpuCmd::GetUniformLocation {
            program: base,
            name: UniformName::SheetWidth,
            loc: (base + 5) as u64,
        },
        GpuCmd::GetUniformLocation {
            program: base,
            name: UniformName::SheetTileW,
            loc: (base + 6) as u64,
        },
        GpuCmd::BindTexture { tex: 0 },
        GpuCmd::BindBuffer { target: BufferTarget::Array, buf: 0 },
        GpuCmd::BindVertexArray { vao: 0 },
        GpuCmd::UseProgram { program: 0 },
    ]
}

/// The exact commands of a sprite render of `n` sprites, whose packed records
/// are upload `data_idx`: clear, bind the pass's resources, set the uniforms,
/// replace the dynamic buffer, draw `n` points, unbind.
pub open spec fn sprite_render_cmds(r: SpriteRenderer, n: usize, view: OrthoView, data_idx: int) -> Seq<
    GpuCmd,
> {
    seq![
        GpuCmd::Enable { cap: Capability::DepthTest },
        GpuCmd::Clear { color: true, depth: true },
        GpuCmd::UseProgram { program: r.shader() },
        GpuCmd::BindVertexArray { vao: r.vao() },
        GpuCmd::BindTexture { tex: r.tex() },
        GpuCmd::UniformOrtho { loc: r.uloc_view_projection(), view },
        GpuCmd::Uniform1i { loc: r.uloc_sheet_width(), value: SHEET_WIDTH_TILES },
        GpuCmd::Uniform1i { loc: r.uloc_sheet_tile_w(), value: SHEET_TILE_W_PX },
        GpuCmd::BindBuffer { target: BufferTarget::Array, buf: r.abo() },
        GpuCmd::BufferData {
            target: BufferTarget::Array,
            data_idx: data_idx as usize,
            usage: BufferUsage::DynamicDraw,
        },
        GpuCmd::BindBuffer { target: BufferTarget::Array, buf: 0 },
        GpuCmd::DrawArrays { mode: DrawMode::Points, first: 0, count: n },
        GpuCmd::BindTexture { tex: 0 },
        GpuCmd::BindBuffer { target: BufferTarget::Array, buf: 0 },
        GpuCmd::BindVertexArray { vao: 0 },
    ]
}

impl SpriteRenderer {
    /// Whether `init` has succeeded.
    pub closed spec fn initialized(self) -> bool {
        self.initialized
    }

    /// Model handle of the sprite shader program.
    pub closed spec fn shader(self) -> u64 {
        self.shader
    }

    /// Model handle of the pass's vertex array.
    pub closed spec fn vao(self) -> u64 {
        self.vao
    }

    /// Model handle of the dynamic sprite vertex buffer.
    pub closed spec fn abo(self) -> u64 {
        self.abo
    }

    /// Model handle of the atlas texture.
    pub closed spec fn tex(self) -> u64 {
        self.tex
    }

    /// Model location of the `view_projection` uniform.
    pub closed spec fn uloc_view_projection(self) -> u64 {
        self.uloc_view_projection
    }

    /// Model location of the `sheet_width` uniform.
    pub closed spec fn uloc_sheet_width(self) -> u64 {
        self.uloc_sheet_width
    }

    /// Model location of the `sheet_tile_w` uniform.
    pub closed spec fn uloc_sheet_tile_w(self) -> u64 {
        self.uloc_sheet_tile_w
    }

    /// A fresh, uninitialized sprite renderer owning no GPU objects: every
    /// handle and cached uniform location is the zero sentinel until `init`
    /// succeeds, and `render` draws nothing until then.
    pub fn new() -> (r: Self)
        ensures
            !r.initialized(),
            r.shader() == 0,
            r.vao() == 0,
            r.abo() == 0,
            r.tex() == 0,
            r.uloc_view_projection() == 0,
            r.uloc_sheet_width() == 0,
            r.uloc_sheet_tile_w() == 0,
    {
        SpriteRenderer {
            initialized: false,
            shader: 0,
            vao: 0,
            abo: 0,
            tex: 0,
            uloc_view_projection: 0,
            uloc_sheet_width: 0,
            uloc_sheet_tile_w: 0,
        }
    }

    /// Initialize the pass against an already-decoded atlas image and an
    /// already-probed binder state.  Idempotent: on an initialized renderer
    /// it returns `Ok` at once and touches nothing.  Otherwise it fails
    /// exactly when the bindings are not loaded or the image is not RGBA;
    /// on success it provisions the pass's GPU objects and uploads the atlas.
    pub fn init_with(&mut self, gpu: &mut Gpu, bindings_loaded: bool, atlas: Option<DecodedImage>)
        -> (r: Result<(), EngineError>)
        requires
            old(gpu).next_id() + 7 <= u64::MAX,
        ensures
            old(self).initialized() ==> r is Ok && *final(self) == *old(self) && final(gpu).same_session(*old(gpu)),
            !old(self).initialized() && !bindings_loaded ==> r == Err::<(), EngineError>(
                EngineError::BindingsNotLoaded,
            ) && *final(self) == *old(self) && final(gpu).same_session(*old(gpu)),
            !old(self).initialized() && bindings_loaded && !rgba_accepted(atlas) ==> r == Err::<(), EngineError>(rgba_rejection(atlas)) && *final(self) == *old(self) && final(gpu).same_session(
                *old(gpu),
            ),
            !old(self).initialized() && bindings_loaded && rgba_accepted(atlas) ==> r is Ok
                && final(self).initialized() && final(self).shader() == old(gpu).next_id()
                && final(self).vao() == old(gpu).next_id() + 1 && final(self).abo() == old(gpu).next_id() + 2 && final(self).tex() == old(gpu).next_id() + 3 && final(self).uloc_view_projection() == old(gpu).next_id() + 4 && final(self).uloc_sheet_width()
                == old(gpu).next_id() + 5 && final(self).uloc_sheet_tile_w() == old(gpu).next_id()
                + 6 && final(gpu).next_id() == old(gpu).next_id() + 7 && final(gpu).trace()
                == old(gpu).trace() + sprite_init_cmds(
                old(gpu).next_id(),
                atlas.unwrap().width,
                atlas.unwrap().height,
                old(gpu).uploads().len() as int,
            ) && final(gpu).uploads() == old(gpu).uploads().push(atlas.unwrap().data@) && final(gpu).glyph_uploads() == old(gpu).glyph_uploads(),
    {
        if self.initialized {
            return Ok(());
        }
        if !bindings_loaded {
            return Err(EngineError::BindingsNotLoaded);
        }
        let img = match check_rgba(atlas) {
            Ok(img) => img,
            Err(e) => {
                return Err(e);
            },
        };
        self.setup_gpu(gpu, img);
        Ok(())
    }

    /// Initialize the pass: probe the binder guard, accept the decoded atlas,
    /// then provision the pass's GPU objects.  Idempotent like `init_with`.
    pub fn init(&mut self, gpu: &mut Gpu, atlas: Option<DecodedImage>) -> (r: Result<
        (),
        EngineError,
    >)
        requires
            old(gpu).next_id() + 7 <= u64::MAX,
        ensures
            old(self).initialized() ==> r is Ok && *final(self) == *old(self) && final(gpu).same_session(*old(gpu)),
            !old(self).initialized() && r is Ok ==> rgba_accepted(atlas) && final(self).initialized() && final(gpu).trace() == old(gpu).trace() + sprite_init_cmds(
                old(gpu).next_id(),
                atlas.unwrap().width,
                atlas.unwrap().height,
                old(gpu).uploads().len() as int,
            ),
            !old(self).initialized() && r is Err ==> !final(self).initialized() && *final(self)
                == *old(self) && final(gpu).same_session(*old(gpu)) && (r == Err::<(), EngineError>(EngineError::BindingsNotLoaded) || r == Err::<(), EngineError>(
                rgba_rejection(atlas),
            )),
            !old(self).initialized() && !rgba_accepted(atlas) ==> r is Err,
    {
        let loaded = gl_bindings_loaded();
        self.init_with(gpu, loaded, atlas)
    }

    /// Provision the pass's GPU objects for an accepted atlas: build the
    /// shader program, create the vertex array, dynamic buffer and atlas
    /// texture, upload the atlas with nearest-neighbor filtering, configure
    /// the vertex attributes at the packed record's exact byte offsets, and
    /// resolve the pass's uniforms.
    fn setup_gpu(&mut self, gpu: &mut Gpu, img: DecodedImage)
        requires
            !old(self).initialized(),
            old(gpu).next_id() + 7 <= u64::MAX,
        ensures
            final(self).initialized(),
            final(self).shader() == old(gpu).next_id(),
            final(self).vao() == old(gpu).next_id() + 1,
            final(self).abo() == old(gpu).next_id() + 2,
            final(self).tex() == old(gpu).next_id() + 3,
            final(self).uloc_view_projection() == old(gpu).next_id() + 4,
            final(self).uloc_sheet_width() == old(gpu).next_id() + 5,
            final(self).uloc_sheet_tile_w() == old(gpu).next_id() + 6,
            final(gpu).next_id() == old(gpu).next_id() + 7,
            final(gpu).trace() == old(gpu).trace() + sprite_init_cmds(
                old(gpu).next_id(),
                img.width,
                img.height,
                old(gpu).uploads().len() as int,
            ),
            final(gpu).uploads() == old(gpu).uploads().push(img.data@),
            final(gpu).glyph_uploads() == old(gpu).glyph_uploads(),
    {
        let shader = gpu.compile_program(ProgramKind::Sprite);
        let vao = gpu.gen_vertex_array();
        let abo = gpu.gen_buffer();
        let tex = gpu.gen_texture();

        gpu.bind_vertex_array(vao);
        gpu.bind_texture(tex);
        gpu.tex_filter_nearest();
        gpu.tex_image_2d(img.width, img.height, PixelFormat::Rgba, img.data);

        gpu.bind_buffer(BufferTarget::Array, abo);
        let attribs = sprite_attribs();
        let a0 = attribs[0];
        gpu.enable_vertex_attrib(a0.index);
        gpu.vertex_attrib_pointer(a0.index, a0.size, a0.kind, SPRITE_STRIDE, a0.offset);
        let a1 = attribs[1];
        gpu.enable_vertex_attrib(a1.index);
        gpu.vertex_attrib_pointer(a1.index, a1.size, a1.kind, SPRITE_STRIDE, a1.offset);
        let a2 = attribs[2];
        gpu.enable_vertex_attrib(a2.index);
        gpu.vertex_attrib_pointer(a2.index, a2.size, a2.kind, SPRITE_STRIDE, a2.offset);
        let a3 = attribs[3];
        gpu.enable_vertex_attrib(a3.index);
        gpu.vertex_attrib_pointer(a3.index, a3.size, a3.kind, SPRITE_STRIDE, a3.offset);
        let a4 = attribs[4];
        gpu.enable_vertex_attrib(a4.index);
        gpu.vertex_attrib_pointer(a4.index, a4.size, a4.kind, SPRITE_STRIDE, a4.offset);

        let uloc_view_projection = gpu.get_uniform_location(shader, UniformName::ViewProjection);
        let uloc_sheet_width = gpu.get_uniform_location(shader, UniformName::SheetWidth);
        let uloc_sheet_tile_w = gpu.get_uniform_location(shader, UniformName::SheetTileW);

        gpu.bind_texture(0);
        gpu.bind_buffer(BufferTarget::Array, 0);
        gpu.bind_vertex_array(0);
        gpu.use_program(0);

        self.initialized = true;
        self.shader = shader;
        self.vao = vao;
        self.abo = abo;
        self.tex = tex;
        self.uloc_view_projection = uloc_view_projection;
        self.uloc_sheet_width = uloc_sheet_width;
        self.uloc_sheet_tile_w = uloc_sheet_tile_w;

        proof {
            assert(gpu.trace() =~= old(gpu).trace() + sprite_init_cmds(
                old(gpu).next_id(),
                img.width,
                img.height,
                old(gpu).uploads().len() as int,
            ));
        }
    }

    /// Render the frame's sprites: a silent no-op before a successful `init`;
    /// otherwise clears color and depth, binds the pass's program, vertex
    /// array and atlas texture, sets the view-projection and atlas uniforms,
    /// replaces the dynamic vertex buffer with the packed sprite records, and
    /// issues one draw call of one point per sprite.  Pipeline binding state
    /// does not survive the call.
    pub fn render(&self, gpu: &mut Gpu, sprites: &Vec<RenderSprite>, view: OrthoView)
        ensures
            !self.initialized() ==> final(gpu).same_session(*old(gpu)),
            self.initialized() ==> final(gpu).next_id() == old(gpu).next_id() && final(gpu).trace() == old(gpu).trace() + sprite_render_cmds(
                *self,
                sprites@.len() as usize,
                view,
                old(gpu).uploads().len() as int,
            ) && final(gpu).uploads() == old(gpu).uploads().push(sprites_bytes(sprites@)) && final(gpu).glyph_uploads() == old(gpu).glyph_uploads(),
    {
        if !self.initialized {
            return;
        }
        gpu.enable(Capability::DepthTest);
        gpu.clear(true, true);

        gpu.use_program(self.shader);
        gpu.bind_vertex_array(self.vao);
        gpu.bind_texture(self.tex);

        gpu.uniform_ortho(self.uloc_view_projection, view);
        gpu.uniform_1i(self.uloc_sheet_width, SHEET_WIDTH_TILES);
        gpu.uniform_1i(self.uloc_sheet_tile_w, SHEET_TILE_W_PX);

        let n = sprites.len();
        let data = pack_sprites(sprites);
        gpu.bind_buffer(BufferTarget::Array, self.abo);
        gpu.buffer_data(BufferTarget::Array, data, BufferUsage::DynamicDraw);
        gpu.bind_buffer(BufferTarget::Array, 0);

        gpu.draw_arrays(DrawMode::Points, 0, n);

        gpu.bind_texture(0);
        gpu.bind_buffer(BufferTarget::Array, 0);
        gpu.bind_vertex_array(0);

        proof {
            assert(gpu.trace() =~= old(gpu).trace() + sprite_render_cmds(
                *self,
                sprites@.len() as usize,
                view,
                old(gpu).uploads().len() as int,
            ));
        }
    }
}

/// Law: the offsets passed to the vertex-attribute configuration commands at
/// initialization are exactly the attribute table's offsets, which
/// `lemma_sprite_layout_matches_attribs` in turn proves equal to the byte
/// offsets of the packed record's fields: record layout and attribute
/// pointers cannot drift apart.
pub proof fn lemma_sprite_init_configures_packed_offsets(
    base: u64,
    width: u32,
    height: u32,
    data_idx: int,
)
    ensures
        forall|k: int|
            0 <= k < 5 ==> sprite_init_cmds(base, width, height, data_idx)[10 + 2 * k] == (
            GpuCmd::VertexAttribPointer {
                index: crate::records::sprite_attrib_table()[k].index,
                size: crate::records::sprite_attrib_table()[k].size,
                kind: crate::records::sprite_attrib_table()[k].kind,
                stride: SPRITE_STRIDE,
                offset: crate::records::sprite_attrib_table()[k].offset,
            }),
{
}

/// Law: a sprite render issues exactly one draw call, a single batch of one
/// point primitive per sprite; every other command only binds, uploads or
/// sets state.
pub proof fn lemma_sprite_render_single_draw(
    r: SpriteRenderer,
    n: usize,
    view: OrthoView,
    data_idx: int,
)
    ensures
        sprite_render_cmds(r, n, view, data_idx).len() == 15,
        sprite_render_cmds(r, n, view, data_idx)[11] == (GpuCmd::DrawArrays {
            mode: DrawMode::Points,
            first: 0,
            count: n,
        }),
        forall|i: int|
            0 <= i < 15 && i != 11 ==> !crate::gpu::is_draw_cmd(
                #[trigger] sprite_render_cmds(r, n, view, data_idx)[i],
            ),
{
}

} // verus!
