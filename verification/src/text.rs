//! Text pass: bitmap-font glyph-quad rendering, anchored in screen space.
//!
//! The font atlas is loaded once at initialization at a configured glyph
//! pixel size.  Each frame, every string is laid out left to right into one
//! glyph-quad record per character, scaled by the string's integer size
//! factor, and the whole batch is drawn in one call; the window size drives
//! the screen-space projection.

use vstd::prelude::*;

use crate::bind::gl_bindings_loaded;
use crate::error::EngineError;
use crate::gpu::BufferTarget;
use crate::gpu::Capability;
use crate::gpu::DrawMode;
use crate::gpu::Gpu;
use crate::gpu::GpuCmd;
use crate::gpu::PixelFormat;
use crate::gpu::ProgramKind;
use crate::gpu::RenderGlyph;
use crate::gpu::UniformName;
use crate::image::check_rgba;
use crate::image::rgba_accepted;
use crate::image::rgba_rejection;
use crate::image::DecodedImage;
use crate::records::string_views;
use crate::records::RenderString;
use crate::records::StringView;

verus! {

/// Whether one string's glyph coordinates all fit the 32-bit pixel space:
/// the per-glyph advance, the anchor, and the last glyph's position must not
/// wrap.
pub open spec fn string_fits(s: StringView, glyph_px: u32) -> bool {
    s.content.len() <= u32::MAX && glyph_px * s.size <= u32::MAX && s.position.0 + s.offset.0
        + s.content.len() * glyph_px * s.size <= u32::MAX && s.position.1 + s.offset.1 <= u32::MAX
}

/// Whether every string in a frame fits the 32-bit pixel space.
pub open spec fn strings_fit(ss: Seq<StringView>, glyph_px: u32) -> bool {
    forall|i: int| 0 <= i < ss.len() ==> string_fits(#[trigger] ss[i], glyph_px)
}

/// The glyph-quad records of one string: one glyph per character, anchored at
/// the string's position plus its offset, advancing one scaled glyph width
/// (`glyph_px * size`) per character, all sharing the string's color.
pub open spec fn glyphs_of_string(s: StringView, glyph_px: u32) -> Seq<RenderGlyph> {
    Seq::new(
        s.content.len(),
        |i: int|
            RenderGlyph {
                x: (s.position.0 + s.offset.0 + i * glyph_px * s.size) as u32,
                y: (s.position.1 + s.offset.1) as u32,
                size: (glyph_px * s.size) as u32,
                color: s.color,
                glyph_id: s.content[i],
            },
    )
}

/// The glyph-quad records of a whole frame's strings, in string order.
pub open spec fn glyphs_of_strings(ss: Seq<StringView>, glyph_px: u32) -> Seq<RenderGlyph>
    decreases ss.len(),
{
    if ss.len() == 0 {
        Seq::empty()
    } else {
        glyphs_of_strings(ss.drop_last(), glyph_px) + glyphs_of_string(ss.last(), glyph_px)
    }
}

/// Law: text layout produces exactly one glyph quad per character of the
/// frame's strings.
pub proof fn lemma_glyph_count(ss: Seq<StringView>, glyph_px: u32)
    ensures
        glyphs_of_strings(ss, glyph_px).len() == total_content_len(ss),
    decreases ss.len(),
{
    if ss.len() > 0 {
        lemma_glyph_count(ss.drop_last(), glyph_px);
    }
}

/// The total character count of a frame's strings.
pub open spec fn total_content_len(ss: Seq<StringView>) -> nat
    decreases ss.len(),
{
    if ss.len() == 0 {
        0
    } else {
        total_content_len(ss.drop_last()) + ss.last().content.len()
    }
}

/// Lay one string out into glyph-quad records.
fn layout_string(s: &RenderString, glyph_px: u32) -> (r: Vec<RenderGlyph>)
    requires
        string_fits(s@, glyph_px),
    ensures
        r@ == glyphs_of_string(s@, glyph_px),
{
    let mut out: Vec<RenderGlyph> = Vec::new();
    let advance: u32 = glyph_px * s.size;
    let base_x: u32 = s.position.0 + s.offset.0;
    let base_y: u32 = s.position.1 + s.offset.1;
    let mut i: usize = 0;
    while i < s.content.len()
        invariant
            string_fits(s@, glyph_px),
            advance == glyph_px * s.size,
            base_x == s.position.0 + s.offset.0,
            base_y == s.position.1 + s.offset.1,
            i <= s.content@.len(),
            out@ == glyphs_of_string(s@, glyph_px).take(i as int),
        decreases s.content@.len() - i,
    {
        proof {
            assert(i * glyph_px * s.size <= s.content@.len() * glyph_px * s.size) by (
            nonlinear_arith)
                requires
                    i < s.content@.len(),
                    glyph_px * s.size >= 0,
            ;
            assert((i as u32) * advance == i * glyph_px * s.size) by (nonlinear_arith)
                requires
                    advance == glyph_px * s.size,
                    0 <= i <= u32::MAX,
            ;
        }
        let g = RenderGlyph {
            x: base_x + (i as u32) * advance,
            y: base_y,
            size: advance,
            color: s.color,
            glyph_id: s.content[i],
        };
        out.push(g);
        proof {
            assert(out@ =~= glyphs_of_string(s@, glyph_px).take(i as int + 1));
        }
        i = i + 1;
    }
    proof {
        assert(glyphs_of_string(s@, glyph_px).take(s.content@.len() as int) =~= glyphs_of_string(
            s@,
            glyph_px,
        ));
    }
    out
}

/// Appending one string to a frame fits exactly when the frame fits and the
/// string does.
proof fn lemma_strings_fit_push(ss: Seq<StringView>, v: StringView, glyph_px: u32)
    ensures
        strings_fit(ss.push(v), glyph_px) == (strings_fit(ss, glyph_px) && string_fits(
            v,
            glyph_px,
        )),
{
    if strings_fit(ss, glyph_px) && string_fits(v, glyph_px) {
        assert forall|i: int| 0 <= i < ss.push(v).len() implies string_fits(
            #[trigger] ss.push(v)[i],
            glyph_px,
        ) by {
            if i < ss.len() {
                assert(ss.push(v)[i] == ss[i]);
            } else {
                assert(ss.push(v)[i] == v);
            }
        }
    }
    if !strings_fit(ss, glyph_px) {
        let i = choose|i: int| 0 <= i < ss.len() && !string_fits(#[trigger] ss[i], glyph_px);
        assert(ss.push(v)[i] == ss[i]);
        assert(!strings_fit(ss.push(v), glyph_px));
    }
    if !string_fits(v, glyph_px) {
        assert(ss.push(v)[ss.len() as int] == v);
        assert(!strings_fit(ss.push(v), glyph_px));
    }
}

/// Decide whether one string's glyph coordinates fit the 32-bit pixel space.
fn string_fits_one(s: &RenderString, glyph_px: u32) -> (b: bool)
    ensures
        b == string_fits(s@, glyph_px),
{
    let len = s.content.len();
    if len > u32::MAX as usize {
        return false;
    }
    proof {
        assert(glyph_px * s.size <= 0xffff_ffff * 0xffff_ffff) by (nonlinear_arith)
            requires
                glyph_px <= 0xffff_ffff,
                s.size <= 0xffff_ffff,
        ;
    }
    let advance: u64 = (glyph_px as u64) * (s.size as u64);
    if advance > u32::MAX as u64 {
        return false;
    }
    proof {
        assert(len * glyph_px <= 0xffff_ffff * 0xffff_ffff) by (nonlinear_arith)
            requires
                len <= 0xffff_ffff,
                glyph_px <= 0xffff_ffff,
        ;
        assert(len * glyph_px * s.size <= 0xffff_ffff * 0xffff_ffff * 0xffff_ffff)
            by (nonlinear_arith)
            requires
                len * glyph_px <= 0xffff_ffff * 0xffff_ffff,
                s.size <= 0xffff_ffff,
        ;
    }
    let span: u128 = (len as u128) * (glyph_px as u128) * (s.size as u128);
    let x_end: u128 = (s.position.0 as u128) + (s.offset.0 as u128) + span;
    let y_end: u64 = (s.position.1 as u64) + (s.offset.1 as u64);
    x_end <= u32::MAX as u128 && y_end <= u32::MAX as u64
}

/// Decide, exactly, whether every string of a frame fits the 32-bit pixel
/// space: the answer equals the `strings_fit` precondition of `render`, so a
/// caller can test it before drawing.
pub fn strings_fit_exec(strings: &Vec<RenderString>, glyph_px: u32) -> (b: bool)
    ensures
        b == strings_fit(string_views(strings@), glyph_px),
{
    let mut ok = true;
    let mut i: usize = 0;
    proof {
        assert(string_views(strings@.take(0int)) =~= Seq::<StringView>::empty());
    }
    while i < strings.len()
        invariant
            i <= strings@.len(),
            ok == strings_fit(string_views(strings@.take(i as int)), glyph_px),
        decreases strings@.len() - i,
    {
        let fits = string_fits_one(&strings[i], glyph_px);
        ok = ok && fits;
        proof {
            let pre = string_views(strings@.take(i as int));
            let post = string_views(strings@.take(i as int + 1));
            assert(post =~= pre.push(strings@[i as int]@));
            lemma_strings_fit_push(pre, strings@[i as int]@, glyph_px);
        }
        i = i + 1;
    }
    proof {
        assert(string_views(strings@.take(strings@.len() as int)) =~= string_views(strings@));
    }
    ok
}

/// Lay a whole frame's strings out into one glyph-quad batch.
pub fn layout_strings(strings: &Vec<RenderString>, glyph_px: u32) -> (r: Vec<RenderGlyph>)
    requires
        strings_fit(string_views(strings@), glyph_px),
    ensures
        r@ == glyphs_of_strings(string_views(strings@), glyph_px),
{
    let mut out: Vec<RenderGlyph> = Vec::new();
    let mut i: usize = 0;
    proof {
        assert(string_views(strings@.take(0int)) =~= Seq::<StringView>::empty());
    }
    while i < strings.len()
        invariant
            strings_fit(string_views(strings@), glyph_px),
            i <= strings@.len(),
            out@ == glyphs_of_strings(string_views(strings@.take(i as int)), glyph_px),
        decreases strings@.len() - i,
    {
        proof {
            assert(string_views(strings@)[i as int] == strings@[i as int]@);
        }
        let mut glyphs = layout_string(&strings[i], glyph_px);
        out.append(&mut glyphs);
        proof {
            let post = string_views(strings@.take(i as int + 1));
            assert(post.drop_last() =~= string_views(strings@.take(i as int)));
            assert(post.last() == strings@[i as int]@);
        }
        i = i + 1;
    }
    proof {
        assert(string_views(strings@.take(strings@.len() as int)) =~= string_views(strings@));
    }
    out
}

/// The text pass renderer.  Constructed uninitialized; `init` moves it to the
/// ready state once and is a no-op afterwards; `render` before a successful
/// `init` silently draws nothing.
pub struct TextRenderer {
    initialized: bool,
    glyph_px: u32,
    shader: u64,
    vao: u64,
    abo: u64,
    tex: u64,
    uloc_view_projection: u64,
}

/// The exact commands of a successful text initialization, given the first
/// fresh model handle `base` and the font atlas dimensions; the font pixels
/// are upload `data_idx`.
pub open spec fn text_init_cmds(base: u64, width: u32, height: u32, data_idx: int) -> Seq<GpuCmd> {
    seq![
        GpuCmd::CompileProgram { program: base, kind: ProgramKind::Text },
        GpuCmd::GenVertexArray { vao: (base + 1) as u64 },
        GpuCmd::GenBuffer { buf: (base + 2) as u64 },
        GpuCmd::GenTexture { tex: (base + 3) as u64 },
        GpuCmd::BindVertexArray { vao: (base + 1) as u64 },
        GpuCmd::BindTexture { tex: (base + 3) as u64 },
        GpuCmd::TexFilterNearest,
        GpuCmd::TexImage2d { width, height, format: PixelFormat::Rgba, data_idx: data_idx as usize },
        GpuCmd::GetUniformLocation {
            program: base,
            name: UniformName::ViewProjection,
            loc: (base + 4) as u64,
        },
        GpuCmd::BindTexture { tex: 0 },
        GpuCmd::BindVertexArray { vao: 0 },
        GpuCmd::UseProgram { program: 0 },
    ]
}

/// The exact commands of a text render of `n` glyph quads at window size
/// `width` x `height`, whose glyph records are glyph upload `data_idx`: the
/// projection comes from the window size, the glyph batch replaces the
/// dynamic buffer, and one point per glyph is drawn.
pub open spec fn text_render_cmds(r: TextRenderer, n: usize, width: u32, height: u32, data_idx: int) -> Seq<
    GpuCmd,
> {
    seq![
        GpuCmd::Disable { cap: Capability::DepthTest },
        GpuCmd::UseProgram { program: r.shader() },
        GpuCmd::BindVertexArray { vao: r.vao() },
        GpuCmd::BindTexture { tex: r.tex() },
        GpuCmd::UniformOrthoFromSize { loc: r.uloc_view_projection(), width, height },
        GpuCmd::BindBuffer { target: BufferTarget::Array, buf: r.abo() },
        GpuCmd::BufferGlyphData { data_idx: data_idx as usize },
        GpuCmd::BindBuffer { target: BufferTarget::Array, buf: 0 },
        GpuCmd::DrawArrays { mode: DrawMode::Points, first: 0, count: n },
        GpuCmd::BindTexture { tex: 0 },
        GpuCmd::BindVertexArray { vao: 0 },
        GpuCmd::UseProgram { program: 0 },
    ]
}

impl TextRenderer {
    /// Whether `init` has succeeded.
    pub closed spec fn initialized(self) -> bool {
        self.initialized
    }

    /// The font's glyph tile size in pixels, fixed at initialization.
    pub closed spec fn glyph_px(self) -> u32 {
        self.glyph_px
    }

    /// Model handle of the text shader program.
    pub closed spec fn shader(self) -> u64 {
        self.shader
    }

    /// Model handle of the pass's vertex array.
    pub closed spec fn vao(self) -> u64 {
        self.vao
    }

    /// Model handle of the dynamic glyph buffer.
    pub closed spec fn abo(self) -> u64 {
        self.abo
    }

    /// Model handle of the font atlas texture.
    pub closed spec fn tex(self) -> u64 {
        self.tex
    }

    /// Model location of the `view_projection` uniform.
    pub closed spec fn uloc_view_projection(self) -> u64 {
        self.uloc_view_projection
    }

    /// A fresh, uninitialized text renderer owning no GPU objects: the glyph
    /// size, every handle and the cached uniform location are the zero
    /// sentinel until `init` succeeds, and `render` draws nothing until then.
    pub fn new() -> (r: Self)
        ensures
            !r.initialized(),
            r.glyph_px() == 0,
            r.shader() == 0,
            r.vao() == 0,
            r.abo() == 0,
            r.tex() == 0,
            r.uloc_view_projection() == 0,
    {
        TextRenderer {
            initialized: false,
            glyph_px: 0,
            shader: 0,
            vao: 0,
            abo: 0,
            tex: 0,
            uloc_view_projection: 0,
        }
    }

    /// Initialize the pass against an already-decoded font atlas and an
    /// already-probed binder state, fixing the glyph pixel size.  Idempotent:
    /// on an initialized renderer it returns `Ok` at once and touches
    /// nothing.  Otherwise it fails exactly when the bindings are not loaded
    /// or the font image is not RGBA (a font load failure is an
    /// initialization error).
    pub fn init_with(
        &mut self,
        gpu: &mut Gpu,
        bindings_loaded: bool,
        font: Option<DecodedImage>,
        glyph_px: u32,
    ) -> (r: Result<(), EngineError>)
        requires
            old(gpu).next_id() + 5 <= u64::MAX,
        ensures
            old(self).initialized() ==> r is Ok && *final(self) == *old(self) && final(gpu).same_session(*old(gpu)),
            !old(self).initialized() && !bindings_loaded ==> r == Err::<(), EngineError>(
                EngineError::BindingsNotLoaded,
            ) && *final(self) == *old(self) && final(gpu).same_session(*old(gpu)),
            !old(self).initialized() && bindings_loaded && !rgba_accepted(font) ==> r == Err::<(), EngineError>(rgba_rejection(font)) && *final(self) == *old(self) && final(gpu).same_session(
                *old(gpu),
            ),
            !old(self).initialized() && bindings_loaded && rgba_accepted(font) ==> r is Ok
                && final(self).initialized() && final(self).glyph_px() == glyph_px && final(self).shader() == old(gpu).next_id() && final(self).vao() == old(gpu).next_id() + 1
                && final(self).abo() == old(gpu).next_id() + 2 && final(self).tex() == old(gpu).next_id() + 3 && final(self).uloc_view_projection() == old(gpu).next_id() + 4
                && final(gpu).next_id() == old(gpu).next_id() + 5 && final(gpu).trace() == old(gpu).trace() + text_init_cmds(
                old(gpu).next_id(),
                font.unwrap().width,
                font.unwrap().height,
                old(gpu).uploads().len() as int,
            ) && final(gpu).uploads() == old(gpu).uploads().push(font.unwrap().data@) && final(gpu).glyph_uploads() == old(gpu).glyph_uploads(),
    {
        if self.initialized {
            return Ok(());
        }
        if !bindings_loaded {
            return Err(EngineError::BindingsNotLoaded);
        }
        let img = match check_rgba(font) {
            Ok(img) => img,
            Err(e) => {
                return Err(e);
            },
        };
        self.setup_gpu(gpu, img, glyph_px);
        Ok(())
    }

    /// Initialize the pass: probe the binder guard, accept the decoded font
    /// atlas, then provision the pass's GPU objects.  Idempotent like
    /// `init_with`.
    pub fn init(&mut self, gpu: &mut Gpu, font: Option<DecodedImage>, glyph_px: u32) -> (r: Result<
        (),
        EngineError,
    >)
        requires
            old(gpu).next_id() + 5 <= u64::MAX,
        ensures
            old(self).initialized() ==> r is Ok && *final(self) == *old(self) && final(gpu).same_session(*old(gpu)),
            !old(self).initialized() && r is Ok ==> rgba_accepted(font) && final(self).initialized() && final(self).glyph_px() == glyph_px && final(gpu).trace() == old(gpu).trace() + text_init_cmds(
                old(gpu).next_id(),
                font.unwrap().width,
                font.unwrap().height,
                old(gpu).uploads().len() as int,
            ),
            !old(self).initialized() && r is Err ==> !final(self).initialized() && *final(self)
                == *old(self) && final(gpu).same_session(*old(gpu)) && (r == Err::<(), EngineError>(
                EngineError::BindingsNotLoaded,
            ) || r == Err::<(), EngineError>(rgba_rejection(font))),
            !old(self).initialized() && !rgba_accepted(font) ==> r is Err,
    {
        let loaded = gl_bindings_loaded();
        self.init_with(gpu, loaded, font, glyph_px)
    }

    /// Provision the pass's GPU objects for an accepted font atlas: build the
    /// text shader program, create the vertex array, dynamic glyph buffer and
    /// font texture, upload the font with nearest-neighbor filtering, and
    /// resolve the projection uniform.
    fn setup_gpu(&mut self, gpu: &mut Gpu, img: DecodedImage, glyph_px: u32)
        requires
            !old(self).initialized(),
            old(gpu).next_id() + 5 <= u64::MAX,
        ensures
            final(self).initialized(),
            final(self).glyph_px() == glyph_px,
            final(self).shader() == old(gpu).next_id(),
            final(self).vao() == old(gpu).next_id() + 1,
            final(self).abo() == old(gpu).next_id() + 2,
            final(self).tex() == old(gpu).next_id() + 3,
            final(self).uloc_view_projection() == old(gpu).next_id() + 4,
            final(gpu).next_id() == old(gpu).next_id() + 5,
            final(gpu).trace() == old(gpu).trace() + text_init_cmds(
                old(gpu).next_id(),
                img.width,
                img.height,
                old(gpu).uploads().len() as int,
            ),
            final(gpu).uploads() == old(gpu).uploads().push(img.data@),
            final(gpu).glyph_uploads() == old(gpu).glyph_uploads(),
    {
        let shader = gpu.compile_program(ProgramKind::Text);
        let vao = gpu.gen_vertex_array();
        let abo = gpu.gen_buffer();
        let tex = gpu.gen_texture();

        gpu.bind_vertex_array(vao);
        gpu.bind_texture(tex);
        gpu.tex_filter_nearest();
        gpu.tex_image_2d(img.width, img.height, PixelFormat::Rgba, img.data);

        let uloc_view_projection = gpu.get_uniform_location(shader, UniformName::ViewProjection);

        gpu.bind_texture(0);
        gpu.bind_vertex_array(0);
        gpu.use_program(0);

        self.initialized = true;
        self.glyph_px = glyph_px;
        self.shader = shader;
        self.vao = vao;
        self.abo = abo;
        self.tex = tex;
        self.uloc_view_projection = uloc_view_projection;

        proof {
            assert(gpu.trace() =~= old(gpu).trace() + text_init_cmds(
                old(gpu).next_id(),
                img.width,
                img.height,
                old(gpu).uploads().len() as int,
            ));
        }
    }

    /// Render the frame's strings: a silent no-op before a successful `init`;
    /// otherwise lays every string out into glyph quads, uploads the batch,
    /// and draws one point per glyph under a projection built from the window
    /// size.  Pipeline binding state does not survive the call.
    pub fn render(&self, gpu: &mut Gpu, strings: &Vec<RenderString>, window_w: u32, window_h: u32)
        requires
            strings_fit(string_views(strings@), self.glyph_px()),
        ensures
            !self.initialized() ==> final(gpu).same_session(*old(gpu)),
            self.initialized() ==> final(gpu).next_id() == old(gpu).next_id() && final(gpu).trace()
                == old(gpu).trace() + text_render_cmds(
                *self,
                glyphs_of_strings(string_views(strings@), self.glyph_px()).len() as usize,
                window_w,
                window_h,
                old(gpu).glyph_uploads().len() as int,
            ) && final(gpu).glyph_uploads() == old(gpu).glyph_uploads().push(
                glyphs_of_strings(string_views(strings@), self.glyph_px()),
            ) && final(gpu).uploads() == old(gpu).uploads(),
    {
        if !self.initialized {
            return;
        }
        let glyphs = layout_strings(strings, self.glyph_px);
        let n = glyphs.len();

        gpu.disable(Capability::DepthTest);
        gpu.use_program(self.shader);
        gpu.bind_vertex_array(self.vao);
        gpu.bind_texture(self.tex);
        gpu.uniform_ortho_from_size(self.uloc_view_projection, window_w, window_h);

        gpu.bind_buffer(BufferTarget::Array, self.abo);
        gpu.buffer_glyph_data(glyphs);
        gpu.bind_buffer(BufferTarget::Array, 0);

        gpu.draw_arrays(DrawMode::Points, 0, n);

        gpu.bind_texture(0);
        gpu.bind_vertex_array(0);
        gpu.use_program(0);

        proof {
            assert(gpu.trace() =~= old(gpu).trace() + text_render_cmds(
                *self,
                glyphs_of_strings(string_views(strings@), self.glyph_px()).len() as usize,
                window_w,
                window_h,
                old(gpu).glyph_uploads().len() as int,
            ));
        }
    }
}

} // verus!
