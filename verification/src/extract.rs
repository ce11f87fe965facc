//! Frame data extraction: the pure mapping stage that joins per-entity
//! component data into the packed record lists each render pass consumes.
//!
//! An entity contributes one record to each list whose required components it
//! carries, independently: a sprite entity that also carries a light
//! contributes one record to the sprite list and one to the light list; a
//! missing optional component simply keeps the entity out of that list.
//! Record order follows entity order here, but the render passes attach no
//! meaning to it.

use vstd::prelude::*;

use crate::gpu::ColorBits;
use crate::records::RenderLight;
use crate::records::RenderSprite;
use crate::records::string_views;
use crate::records::RenderString;
use crate::records::StringView;

verus! {

/// An entity's spatial placement: translation (x, y, z), scale (x, y) and
/// rotation, each an `f32` bit pattern.
#[derive(Clone, Copy, Debug)]
pub struct TransformData {
    pub translation: (u32, u32, u32),
    pub scale: (u32, u32),
    pub rotation: u32,
}

/// An entity's sprite component: which atlas tile it shows.
#[derive(Clone, Copy, Debug)]
pub struct SpriteData {
    pub sprite_id: u16,
    pub sprite_dims: u8,
    pub sprite_flags: u8,
}

/// An entity's text component.
pub struct TextData {
    /// Glyph indices into the font atlas, one per character.
    pub content: Vec<u8>,
    /// Integer scale applied to the font's glyph pixel size.
    pub size: u32,
    /// Offset (x, y) added to the anchor, in pixels.
    pub offset: (u32, u32),
}

/// One entity's renderable components, as read from the external data store
/// for one frame; every component is optional.
pub struct EntityData {
    /// Spatial placement, required for sprite and light records.
    pub transform: Option<TransformData>,
    /// Tint color, required for sprite and text records.
    pub color: Option<ColorBits>,
    /// Sprite tile, required for sprite records.
    pub sprite: Option<SpriteData>,
    /// Point-light intensity (an `f32` bit pattern), required for light
    /// records.
    pub light: Option<u32>,
    /// Screen-space anchor in whole pixels, required for text records.
    pub position_px: Option<(u32, u32)>,
    /// Text run, required for text records.
    pub text: Option<TextData>,
}

/// The sprite record an entity contributes: one if and only if it carries a
/// transform, a color and a sprite.
pub open spec fn sprite_record(e: EntityData) -> Option<RenderSprite> {
    match (e.transform, e.color, e.sprite) {
        (Some(t), Some(c), Some(s)) => Some(
            RenderSprite {
                translation: t.translation,
                scale: t.scale,
                rotation: t.rotation,
                color: c,
                sprite_id: s.sprite_id,
                sprite_dims: s.sprite_dims,
                sprite_flags: s.sprite_flags,
            },
        ),
        _ => None,
    }
}

/// The light record an entity contributes: one if and only if it carries a
/// transform and a light; the splat sits at the transform's (x, y).
pub open spec fn light_record(e: EntityData) -> Option<RenderLight> {
    match (e.transform, e.light) {
        (Some(t), Some(intensity)) => Some(
            RenderLight { position: (t.translation.0, t.translation.1), intensity },
        ),
        _ => None,
    }
}

/// The text record an entity contributes: one if and only if it carries a
/// text run, a screen position and a color.
pub open spec fn string_record(e: EntityData) -> Option<StringView> {
    match e.text {
        Some(t) => match (e.position_px, e.color) {
            (Some(p), Some(c)) => Some(
                StringView {
                    content: t.content@,
                    position: p,
                    size: t.size,
                    color: c,
                    offset: t.offset,
                },
            ),
            _ => None,
        },
        None => None,
    }
}

/// The frame's sprite list: the sprite records of the entities that have one,
/// in entity order.
pub open spec fn sprites_of(es: Seq<EntityData>) -> Seq<RenderSprite>
    decreases es.len(),
{
    if es.len() == 0 {
        Seq::empty()
    } else {
        sprites_of(es.drop_last()) + match sprite_record(es.last()) {
            Some(r) => seq![r],
            None => Seq::empty(),
        }
    }
}

/// The frame's light list, in entity order.
pub open spec fn lights_of(es: Seq<EntityData>) -> Seq<RenderLight>
    decreases es.len(),
{
    if es.len() == 0 {
        Seq::empty()
    } else {
        lights_of(es.drop_last()) + match light_record(es.last()) {
            Some(r) => seq![r],
            None => Seq::empty(),
        }
    }
}

/// The frame's text list, in entity order.
pub open spec fn strings_of(es: Seq<EntityData>) -> Seq<StringView>
    decreases es.len(),
{
    if es.len() == 0 {
        Seq::empty()
    } else {
        strings_of(es.drop_last()) + match string_record(es.last()) {
            Some(r) => seq![r],
            None => Seq::empty(),
        }
    }
}

/// The three record lists of one frame.
pub struct FrameData {
    pub sprites: Vec<RenderSprite>,
    pub lights: Vec<RenderLight>,
    pub strings: Vec<RenderString>,
}

/// Copy a byte list.
fn clone_bytes(v: &Vec<u8>) -> (r: Vec<u8>)
    ensures
        r@ == v@,
{
    let mut out: Vec<u8> = Vec::new();
    let mut i: usize = 0;
    while i < v.len()
        invariant
            i <= v@.len(),
            out@ == v@.take(i as int),
        decreases v@.len() - i,
    {
        out.push(v[i]);
        proof {
            assert(out@ =~= v@.take(i as int + 1));
        }
        i = i + 1;
    }
    proof {
        assert(v@.take(v@.len() as int) =~= v@);
    }
    out
}

/// Join the frame's entities into the three packed record lists, one pass,
/// preserving per-entity association: every entity contributes to exactly
/// the lists whose components it carries.
pub fn extract_frame(entities: &Vec<EntityData>) -> (r: FrameData)
    ensures
        r.sprites@ == sprites_of(entities@),
        r.lights@ == lights_of(entities@),
        string_views(r.strings@) == strings_of(entities@),
{
    let mut sprites: Vec<RenderSprite> = Vec::new();
    let mut lights: Vec<RenderLight> = Vec::new();
    let mut strings: Vec<RenderString> = Vec::new();
    let mut i: usize = 0;
    proof {
        assert(entities@.take(0int) =~= Seq::<EntityData>::empty());
    }
    while i < entities.len()
        invariant
            i <= entities@.len(),
            sprites@ == sprites_of(entities@.take(i as int)),
            lights@ == lights_of(entities@.take(i as int)),
            string_views(strings@) == strings_of(entities@.take(i as int)),
        decreases entities@.len() - i,
    {
        let e = &entities[i];
        match (&e.transform, &e.color, &e.sprite) {
            (Some(t), Some(c), Some(s)) => {
                sprites.push(
                    RenderSprite {
                        translation: t.translation,
                        scale: t.scale,
                        rotation: t.rotation,
                        color: *c,
                        sprite_id: s.sprite_id,
                        sprite_dims: s.sprite_dims,
                        sprite_flags: s.sprite_flags,
                    },
                );
            },
            _ => {},
        }
        match (&e.transform, &e.light) {
            (Some(t), Some(intensity)) => {
                lights.push(
                    RenderLight {
                        position: (t.translation.0, t.translation.1),
                        intensity: *intensity,
                    },
                );
            },
            _ => {},
        }
        match (&e.text, &e.position_px, &e.color) {
            (Some(t), Some(p), Some(c)) => {
                strings.push(
                    RenderString {
                        content: clone_bytes(&t.content),
                        position: *p,
                        size: t.size,
                        color: *c,
                        offset: t.offset,
                    },
                );
            },
            _ => {},
        }
        proof {
            let post = entities@.take(i as int + 1);
            assert(post.drop_last() =~= entities@.take(i as int));
            assert(post.last() == entities@[i as int]);
            assert(sprites@ =~= sprites_of(post));
            assert(lights@ =~= lights_of(post));
            assert(string_views(strings@) =~= strings_of(post));
        }
        i = i + 1;
    }
    proof {
        assert(entities@.take(entities@.len() as int) =~= entities@);
    }
    FrameData { sprites, lights, strings }
}

} // verus!
