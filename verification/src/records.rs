//! Packed per-frame record types consumed by the render passes, their exact
//! byte layouts, and the vertex-attribute tables that must mirror them.
//!
//! The byte offset of every record field and the offset configured for the
//! corresponding vertex attribute are derived from one running byte-size
//! accumulation, and proved equal to the fixed published offsets, so the
//! record layout and the attribute pointers cannot drift apart.

use vstd::prelude::*;

use crate::gpu::AttribKind;
use crate::gpu::ColorBits;

verus! {

/// One sprite instance, one GPU point-vertex.  Float-valued fields are held
/// as IEEE-754 bit patterns so that the record's byte layout is exact and
/// provable; the renderer never does arithmetic on them, it only copies them
/// into the vertex buffer.
#[derive(Clone, Copy, Debug)]
pub struct RenderSprite {
    /// World translation (x, y, z), each an `f32` bit pattern.
    pub translation: (u32, u32, u32),
    /// Scale (x, y), each an `f32` bit pattern.
    pub scale: (u32, u32),
    /// Rotation in radians, an `f32` bit pattern.
    pub rotation: u32,
    /// Color (r, g, b, a), each an `f32` bit pattern.
    pub color: ColorBits,
    /// Index of the sprite's tile in the atlas.
    pub sprite_id: u16,
    /// Tile footprint of the sprite in atlas cells.
    pub sprite_dims: u8,
    /// Flip / animation-frame bits.
    pub sprite_flags: u8,
}

impl Default for RenderSprite {
    /// Identity transform, opaque white, atlas tile 0.
    fn default() -> (r: Self)
        ensures
            r.translation == (crate::F32_ZERO_BITS, crate::F32_ZERO_BITS, crate::F32_ZERO_BITS),
            r.scale == (crate::F32_ONE_BITS, crate::F32_ONE_BITS),
            r.rotation == crate::F32_ZERO_BITS,
            r.color == (ColorBits {
                r: crate::F32_ONE_BITS,
                g: crate::F32_ONE_BITS,
                b: crate::F32_ONE_BITS,
                a: crate::F32_ONE_BITS,
            }),
            r.sprite_id == 0u16,
            r.sprite_dims == 0u8,
            r.sprite_flags == 0u8,
    {
        Self {
            translation: (crate::F32_ZERO_BITS, crate::F32_ZERO_BITS, crate::F32_ZERO_BITS),
            scale: (crate::F32_ONE_BITS, crate::F32_ONE_BITS),
            rotation: crate::F32_ZERO_BITS,
            color: ColorBits {
                r: crate::F32_ONE_BITS,
                g: crate::F32_ONE_BITS,
                b: crate::F32_ONE_BITS,
                a: crate::F32_ONE_BITS,
            },
            sprite_id: 0,
            sprite_dims: 0,
            sprite_flags: 0,
        }
    }
}

/// One point light, consumed by the lightmap accumulation sub-pass.
#[derive(Clone, Copy, Debug)]
pub struct RenderLight {
    /// World position (x, y), each an `f32` bit pattern.
    pub position: (u32, u32),
    /// Light intensity, an `f32` bit pattern.
    pub intensity: u32,
}

/// One run of text, consumed by the text pass.  Positions are screen-space
/// pixels; the text is anchored in screen space, not world space.
pub struct RenderString {
    /// Glyph indices into the font atlas, one per character.
    pub content: Vec<u8>,
    /// Screen-space anchor (x, y), in pixels.
    pub position: (u32, u32),
    /// Integer scale applied to the font's glyph pixel size.
    pub size: u32,
    /// Text color.
    pub color: ColorBits,
    /// Offset (x, y) added to the anchor, in pixels.
    pub offset: (u32, u32),
}

/// The mathematical value of a text run: its glyph indices as a sequence,
/// with the placement fields.
pub struct StringView {
    pub content: Seq<u8>,
    pub position: (u32, u32),
    pub size: u32,
    pub color: ColorBits,
    pub offset: (u32, u32),
}

impl View for RenderString {
    type V = StringView;

    open spec fn view(&self) -> StringView {
        StringView {
            content: self.content@,
            position: self.position,
            size: self.size,
            color: self.color,
            offset: self.offset,
        }
    }
}

/// The mathematical values of a list of text runs.
pub open spec fn string_views(ss: Seq<RenderString>) -> Seq<StringView> {
    ss.map_values(|s: RenderString| s@)
}

/// Byte size of one 32-bit field.
pub const WORD_SIZE: u32 = 4;

/// Byte offset of `RenderSprite::translation` in the packed record.
pub const SPRITE_TRANSLATION_OFFSET: u32 = 0;

/// Byte offset of `RenderSprite::scale` in the packed record.
pub const SPRITE_SCALE_OFFSET: u32 = 12;

/// Byte offset of `RenderSprite::rotation` in the packed record.
pub const SPRITE_ROTATION_OFFSET: u32 = 20;

/// Byte offset of `RenderSprite::color` in the packed record.
pub const SPRITE_COLOR_OFFSET: u32 = 24;

/// Byte offset of the packed id/dims/flags word in the packed record.
pub const SPRITE_DATA_OFFSET: u32 = 40;

/// Byte size of one packed `RenderSprite`.
pub const SPRITE_STRIDE: u32 = 44;

/// Byte offset of `RenderLight::position` in the packed record.
pub const LIGHT_POSITION_OFFSET: u32 = 0;

/// Byte offset of `RenderLight::intensity` in the packed record.
pub const LIGHT_INTENSITY_OFFSET: u32 = 8;

/// Byte size of one packed `RenderLight`.
pub const LIGHT_STRIDE: u32 = 12;

/// The little-endian bytes of a 32-bit word.
pub open spec fn u32_le_bytes(x: u32) -> Seq<u8> {
    seq![
        (x & 0xff) as u8,
        ((x >> 8) & 0xff) as u8,
        ((x >> 16) & 0xff) as u8,
        ((x >> 24) & 0xff) as u8,
    ]
}

/// Each byte selected by `u32_le_bytes` fits in a byte.
proof fn lemma_u32_le_bytes_fit(x: u32)
    ensures
        x & 0xff < 256,
        (x >> 8) & 0xff < 256,
        (x >> 16) & 0xff < 256,
        (x >> 24) & 0xff < 256,
{
    assert(x & 0xff < 256 && (x >> 8) & 0xff < 256 && (x >> 16) & 0xff < 256 && (x >> 24) & 0xff
        < 256) by (bit_vector);
}

/// `sprite_id`, `sprite_dims` and `sprite_flags` packed into one 32-bit word
/// in record order: id in the low half-word, then dims, then flags.
pub open spec fn sprite_word(s: RenderSprite) -> u32 {
    (s.sprite_id as u32) | ((s.sprite_dims as u32) << 16) | ((s.sprite_flags as u32) << 24)
}

/// The exact packed bytes of one sprite record: translation, scale, rotation,
/// color, then the id/dims/flags word, all little-endian 32-bit fields.
pub open spec fn sprite_bytes(s: RenderSprite) -> Seq<u8> {
    u32_le_bytes(s.translation.0) + u32_le_bytes(s.translation.1) + u32_le_bytes(s.translation.2)
        + u32_le_bytes(s.scale.0) + u32_le_bytes(s.scale.1) + u32_le_bytes(s.rotation)
        + u32_le_bytes(s.color.r) + u32_le_bytes(s.color.g) + u32_le_bytes(s.color.b)
        + u32_le_bytes(s.color.a) + u32_le_bytes(sprite_word(s))
}

/// The packed bytes of a whole sprite list, records in order.
pub open spec fn sprites_bytes(ss: Seq<RenderSprite>) -> Seq<u8>
    decreases ss.len(),
{
    if ss.len() == 0 {
        Seq::empty()
    } else {
        sprites_bytes(ss.drop_last()) + sprite_bytes(ss.last())
    }
}

/// A packed sprite list is exactly one stride per record.
pub proof fn lemma_sprites_bytes_len(ss: Seq<RenderSprite>)
    ensures
        sprites_bytes(ss).len() == SPRITE_STRIDE * ss.len(),
    decreases ss.len(),
{
    if ss.len() > 0 {
        lemma_sprites_bytes_len(ss.drop_last());
    }
}

/// The exact packed bytes of one light record: position then intensity,
/// little-endian 32-bit fields.
pub open spec fn light_bytes(l: RenderLight) -> Seq<u8> {
    u32_le_bytes(l.position.0) + u32_le_bytes(l.position.1) + u32_le_bytes(l.intensity)
}

/// The packed bytes of a whole light list, records in order.
pub open spec fn lights_bytes(ls: Seq<RenderLight>) -> Seq<u8>
    decreases ls.len(),
{
    if ls.len() == 0 {
        Seq::empty()
    } else {
        lights_bytes(ls.drop_last()) + light_bytes(ls.last())
    }
}

/// A packed light list is exactly one stride per record.
pub proof fn lemma_lights_bytes_len(ls: Seq<RenderLight>)
    ensures
        lights_bytes(ls).len() == LIGHT_STRIDE * ls.len(),
    decreases ls.len(),
{
    if ls.len() > 0 {
        lemma_lights_bytes_len(ls.drop_last());
    }
}

/// Append the little-endian bytes of one 32-bit word.
fn push_u32_le(out: &mut Vec<u8>, x: u32)
    ensures
        final(out)@ == old(out)@ + u32_le_bytes(x),
{
    proof {
        lemma_u32_le_bytes_fit(x);
    }
    out.push((x & 0xff) as u8);
    out.push(((x >> 8) & 0xff) as u8);
    out.push(((x >> 16) & 0xff) as u8);
    out.push(((x >> 24) & 0xff) as u8);
    proof {
        assert(out@ =~= old(out)@ + u32_le_bytes(x));
    }
}

/// Append one packed sprite record.
fn push_sprite(out: &mut Vec<u8>, s: &RenderSprite)
    ensures
        final(out)@ == old(out)@ + sprite_bytes(*s),
{
    push_u32_le(out, s.translation.0);
    push_u32_le(out, s.translation.1);
    push_u32_le(out, s.translation.2);
    push_u32_le(out, s.scale.0);
    push_u32_le(out, s.scale.1);
    push_u32_le(out, s.rotation);
    push_u32_le(out, s.color.r);
    push_u32_le(out, s.color.g);
    push_u32_le(out, s.color.b);
    push_u32_le(out, s.color.a);
    let word: u32 = (s.sprite_id as u32) | ((s.sprite_dims as u32) << 16u32) | ((
    s.sprite_flags as u32) << 24u32);
    push_u32_le(out, word);
    proof {
        assert(out@ =~= old(out)@ + sprite_bytes(*s));
    }
}

/// Pack one sprite record into its exact 44-byte GPU form.
pub fn pack_sprite(s: &RenderSprite) -> (r: Vec<u8>)
    ensures
        r@ == sprite_bytes(*s),
{
    let mut out: Vec<u8> = Vec::new();
    push_sprite(&mut out, s);
    proof {
        assert(out@ =~= sprite_bytes(*s));
    }
    out
}

/// Pack a sprite list into the bytes uploaded to the dynamic vertex buffer.
pub fn pack_sprites(sprites: &Vec<RenderSprite>) -> (r: Vec<u8>)
    ensures
        r@ == sprites_bytes(sprites@),
        r@.len() == SPRITE_STRIDE * sprites@.len(),
{
    let mut out: Vec<u8> = Vec::new();
    let mut i: usize = 0;
    proof {
        assert(sprites@.take(0int) =~= Seq::<RenderSprite>::empty());
    }
    while i < sprites.len()
        invariant
            i <= sprites@.len(),
            out@ == sprites_bytes(sprites@.take(i as int)),
        decreases sprites@.len() - i,
    {
        push_sprite(&mut out, &sprites[i]);
        proof {
            let pre = sprites@.take(i as int);
            let post = sprites@.take(i as int + 1);
            assert(post.drop_last() =~= pre);
            assert(post.last() == sprites@[i as int]);
        }
        i = i + 1;
    }
    proof {
        assert(sprites@.take(sprites@.len() as int) =~= sprites@);
        lemma_sprites_bytes_len(sprites@);
    }
    out
}

/// Append one packed light record.
fn push_light(out: &mut Vec<u8>, l: &RenderLight)
    ensures
        final(out)@ == old(out)@ + light_bytes(*l),
{
    push_u32_le(out, l.position.0);
    push_u32_le(out, l.position.1);
    push_u32_le(out, l.intensity);
    proof {
        assert(out@ =~= old(out)@ + light_bytes(*l));
    }
}

/// Pack a light list into the bytes uploaded to the dynamic vertex buffer.
pub fn pack_lights(lights: &Vec<RenderLight>) -> (r: Vec<u8>)
    ensures
        r@ == lights_bytes(lights@),
        r@.len() == LIGHT_STRIDE * lights@.len(),
{
    let mut out: Vec<u8> = Vec::new();
    let mut i: usize = 0;
    proof {
        assert(lights@.take(0int) =~= Seq::<RenderLight>::empty());
    }
    while i < lights.len()
        invariant
            i <= lights@.len(),
            out@ == lights_bytes(lights@.take(i as int)),
        decreases lights@.len() - i,
    {
        push_light(&mut out, &lights[i]);
        proof {
            let pre = lights@.take(i as int);
            let post = lights@.take(i as int + 1);
            assert(post.drop_last() =~= pre);
            assert(post.last() == lights@[i as int]);
        }
        i = i + 1;
    }
    proof {
        assert(lights@.take(lights@.len() as int) =~= lights@);
        lemma_lights_bytes_len(lights@);
    }
    out
}

/// Byte size of one screen-quad vertex: position (x, y) + texture (u, v).
pub const QUAD_STRIDE: u32 = 16;

/// Byte offset of the texture coordinates inside one screen-quad vertex.
pub const QUAD_UV_OFFSET: u32 = 8;

/// The fixed full-screen quad in clip space, 4 vertices of
/// (x, y, u, v), listed clockwise from the top-right corner; coordinates are
/// `f32` bit patterns of 1.0, -1.0 and 0.0.
pub open spec fn screen_quad_words() -> Seq<u32> {
    seq![
        crate::F32_ONE_BITS, crate::F32_ONE_BITS, crate::F32_ONE_BITS, crate::F32_ONE_BITS,
        crate::F32_ONE_BITS, crate::F32_NEG_ONE_BITS, crate::F32_ONE_BITS, crate::F32_ZERO_BITS,
        crate::F32_NEG_ONE_BITS, crate::F32_NEG_ONE_BITS, crate::F32_ZERO_BITS, crate::F32_ZERO_BITS,
        crate::F32_NEG_ONE_BITS, crate::F32_ONE_BITS, crate::F32_ZERO_BITS, crate::F32_ONE_BITS,
    ]
}

/// The packed bytes of a sequence of 32-bit words, in order, little-endian.
pub open spec fn words_bytes(ws: Seq<u32>) -> Seq<u8>
    decreases ws.len(),
{
    if ws.len() == 0 {
        Seq::empty()
    } else {
        words_bytes(ws.drop_last()) + u32_le_bytes(ws.last())
    }
}

/// Append the packed bytes of a word list.
fn push_words(out: &mut Vec<u8>, ws: &Vec<u32>)
    ensures
        final(out)@ == old(out)@ + words_bytes(ws@),
{
    let mut i: usize = 0;
    proof {
        assert(ws@.take(0int) =~= Seq::<u32>::empty());
        assert(out@ =~= old(out)@ + words_bytes(ws@.take(0int)));
    }
    while i < ws.len()
        invariant
            i <= ws@.len(),
            out@ == old(out)@ + words_bytes(ws@.take(i as int)),
        decreases ws@.len() - i,
    {
        push_u32_le(out, ws[i]);
        proof {
            let post = ws@.take(i as int + 1);
            assert(post.drop_last() =~= ws@.take(i as int));
            assert(post.last() == ws@[i as int]);
        }
        i = i + 1;
    }
    proof {
        assert(ws@.take(ws@.len() as int) =~= ws@);
    }
}

/// Pack the fixed full-screen quad into its static vertex buffer bytes.
pub fn pack_screen_quad() -> (r: Vec<u8>)
    ensures
        r@ == words_bytes(screen_quad_words()),
{
    let one: u32 = crate::F32_ONE_BITS;
    let neg: u32 = crate::F32_NEG_ONE_BITS;
    let zero: u32 = crate::F32_ZERO_BITS;
    let words: Vec<u32> = vec![
        one, one, one, one,
        one, neg, one, zero,
        neg, neg, zero, zero,
        neg, one, zero, one,
    ];
    let mut out: Vec<u8> = Vec::new();
    proof {
        assert(words@ =~= screen_quad_words());
    }
    push_words(&mut out, &words);
    out
}

/// The fixed index list drawing the screen quad as two triangles.
pub open spec fn screen_quad_indices() -> Seq<u32> {
    seq![0u32, 1u32, 3u32, 1u32, 2u32, 3u32]
}

/// Pack the quad's index list into its static element buffer bytes.
pub fn pack_quad_indices() -> (r: Vec<u8>)
    ensures
        r@ == words_bytes(screen_quad_indices()),
{
    let words: Vec<u32> = vec![0u32, 1u32, 3u32, 1u32, 2u32, 3u32];
    let mut out: Vec<u8> = Vec::new();
    proof {
        assert(words@ =~= screen_quad_indices());
    }
    push_words(&mut out, &words);
    out
}

/// One row of a vertex-attribute layout table.
#[derive(Clone, Copy, Debug, PartialEq, Eq, Structural)]
pub struct VertexAttrib {
    /// Attribute slot index.
    pub index: u32,
    /// Number of 32-bit components.
    pub size: u32,
    /// Component type.
    pub kind: AttribKind,
    /// Byte offset of the attribute's first component inside one record.
    pub offset: u32,
}

/// The sprite pass's attribute table: one row per `RenderSprite` field, in
/// record order, with the offsets the pass configures at initialization.
pub open spec fn sprite_attrib_table() -> Seq<VertexAttrib> {
    seq![
        VertexAttrib {
            index: 0,
            size: 3,
            kind: AttribKind::Float,
            offset: SPRITE_TRANSLATION_OFFSET,
        },
        VertexAttrib { index: 1, size: 2, kind: AttribKind::Float, offset: SPRITE_SCALE_OFFSET },
        VertexAttrib { index: 2, size: 1, kind: AttribKind::Float, offset: SPRITE_ROTATION_OFFSET },
        VertexAttrib { index: 3, size: 4, kind: AttribKind::Float, offset: SPRITE_COLOR_OFFSET },
        VertexAttrib { index: 4, size: 1, kind: AttribKind::UInt, offset: SPRITE_DATA_OFFSET },
    ]
}

/// The light pass's attribute table: position then intensity.
pub open spec fn light_attrib_table() -> Seq<VertexAttrib> {
    seq![
        VertexAttrib { index: 0, size: 2, kind: AttribKind::Float, offset: LIGHT_POSITION_OFFSET },
        VertexAttrib { index: 1, size: 1, kind: AttribKind::Float, offset: LIGHT_INTENSITY_OFFSET },
    ]
}

/// Build the sprite attribute table by running byte-size accumulation over
/// the record's fields, proving that the accumulated offsets are exactly the
/// published constants of the packed layout.
pub fn sprite_attribs() -> (r: Vec<VertexAttrib>)
    ensures
        r@ == sprite_attrib_table(),
{
    let mut v: Vec<VertexAttrib> = Vec::new();
    let mut offset: u32 = 0;
    v.push(VertexAttrib { index: 0, size: 3, kind: AttribKind::Float, offset });
    offset = offset + WORD_SIZE * 3;
    v.push(VertexAttrib { index: 1, size: 2, kind: AttribKind::Float, offset });
    offset = offset + WORD_SIZE * 2;
    v.push(VertexAttrib { index: 2, size: 1, kind: AttribKind::Float, offset });
    offset = offset + WORD_SIZE * 1;
    v.push(VertexAttrib { index: 3, size: 4, kind: AttribKind::Float, offset });
    offset = offset + WORD_SIZE * 4;
    v.push(VertexAttrib { index: 4, size: 1, kind: AttribKind::UInt, offset });
    proof {
        assert(v@ =~= sprite_attrib_table());
    }
    v
}

/// Build the light attribute table by the same accumulation.
pub fn light_attribs() -> (r: Vec<VertexAttrib>)
    ensures
        r@ == light_attrib_table(),
{
    let mut v: Vec<VertexAttrib> = Vec::new();
    let mut offset: u32 = 0;
    v.push(VertexAttrib { index: 0, size: 2, kind: AttribKind::Float, offset });
    offset = offset + WORD_SIZE * 2;
    v.push(VertexAttrib { index: 1, size: 1, kind: AttribKind::Float, offset });
    proof {
        assert(v@ =~= light_attrib_table());
    }
    v
}

/// Law: the byte offset of each `RenderSprite` field inside the packed
/// record equals the offset configured for the corresponding vertex
/// attribute, and one packed record is exactly one stride.
pub proof fn lemma_sprite_layout_matches_attribs(s: RenderSprite)
    ensures
        sprite_bytes(s).len() == SPRITE_STRIDE,
        sprite_bytes(s).subrange(
            sprite_attrib_table()[0].offset as int,
            sprite_attrib_table()[0].offset + 12,
        ) == u32_le_bytes(s.translation.0) + u32_le_bytes(s.translation.1) + u32_le_bytes(
            s.translation.2,
        ),
        sprite_bytes(s).subrange(
            sprite_attrib_table()[1].offset as int,
            sprite_attrib_table()[1].offset + 8,
        ) == u32_le_bytes(s.scale.0) + u32_le_bytes(s.scale.1),
        sprite_bytes(s).subrange(
            sprite_attrib_table()[2].offset as int,
            sprite_attrib_table()[2].offset + 4,
        ) == u32_le_bytes(s.rotation),
        sprite_bytes(s).subrange(
            sprite_attrib_table()[3].offset as int,
            sprite_attrib_table()[3].offset + 16,
        ) == u32_le_bytes(s.color.r) + u32_le_bytes(s.color.g) + u32_le_bytes(s.color.b)
            + u32_le_bytes(s.color.a),
        sprite_bytes(s).subrange(
            sprite_attrib_table()[4].offset as int,
            sprite_attrib_table()[4].offset + 4,
        ) == u32_le_bytes(sprite_word(s)),
{
    assert(sprite_bytes(s).subrange(0int, 12int) =~= u32_le_bytes(s.translation.0) + u32_le_bytes(
        s.translation.1,
    ) + u32_le_bytes(s.translation.2));
    assert(sprite_bytes(s).subrange(12int, 20int) =~= u32_le_bytes(s.scale.0) + u32_le_bytes(
        s.scale.1,
    ));
    assert(sprite_bytes(s).subrange(20int, 24int) =~= u32_le_bytes(s.rotation));
    assert(sprite_bytes(s).subrange(24int, 40int) =~= u32_le_bytes(s.color.r) + u32_le_bytes(
        s.color.g,
    ) + u32_le_bytes(s.color.b) + u32_le_bytes(s.color.a));
    assert(sprite_bytes(s).subrange(40int, 44int) =~= u32_le_bytes(sprite_word(s)));
}

/// Law: the same correspondence for the light record.
pub proof fn lemma_light_layout_matches_attribs(l: RenderLight)
    ensures
        light_bytes(l).len() == LIGHT_STRIDE,
        light_bytes(l).subrange(
            light_attrib_table()[0].offset as int,
            light_attrib_table()[0].offset + 8,
        ) == u32_le_bytes(l.position.0) + u32_le_bytes(l.position.1),
        light_bytes(l).subrange(
            light_attrib_table()[1].offset as int,
            light_attrib_table()[1].offset + 4,
        ) == u32_le_bytes(l.intensity),
{
    assert(light_bytes(l).subrange(0int, 8int) =~= u32_le_bytes(l.position.0) + u32_le_bytes(
        l.position.1,
    ));
    assert(light_bytes(l).subrange(8int, 12int) =~= u32_le_bytes(l.intensity));
}

} // verus!
