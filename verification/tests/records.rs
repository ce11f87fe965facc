//! Record layout and packing behavior.

use lantern_render::records::{
    light_attribs, pack_lights, pack_quad_indices, pack_screen_quad, pack_sprite, pack_sprites,
    sprite_attribs, RenderLight, RenderSprite,
};
use lantern_render::{AttribKind, ColorBits};

fn bits(x: f32) -> u32 {
    x.to_bits()
}

#[test]
fn default_sprite_record() {
    let d = RenderSprite::default();
    assert_eq!(d.translation.0, bits(0.0));
    assert_eq!(d.translation.1, bits(0.0));
    assert_eq!(d.translation.2, bits(0.0));
    assert_eq!(d.scale.0, bits(1.0));
    assert_eq!(d.scale.1, bits(1.0));
    assert_eq!(d.rotation, bits(0.0));
    assert_eq!(d.color.r, bits(1.0));
    assert_eq!(d.color.g, bits(1.0));
    assert_eq!(d.color.b, bits(1.0));
    assert_eq!(d.color.a, bits(1.0));
    assert_eq!(d.sprite_id, 0);
    assert_eq!(d.sprite_dims, 0);
    assert_eq!(d.sprite_flags, 0);
}

fn sample_sprite() -> RenderSprite {
    RenderSprite {
        translation: (bits(1.5), bits(2.5), bits(-3.0)),
        scale: (bits(0.5), bits(4.0)),
        rotation: bits(0.25),
        color: ColorBits { r: bits(0.125), g: bits(0.25), b: bits(0.5), a: bits(0.75) },
        sprite_id: 0xABCD,
        sprite_dims: 7,
        sprite_flags: 9,
    }
}

#[test]
fn sprite_field_bytes_sit_at_published_offsets() {
    let s = sample_sprite();
    let b = pack_sprite(&s);
    assert_eq!(b.len(), 44);
    assert_eq!(&b[0..4], &1.5f32.to_bits().to_le_bytes());
    assert_eq!(&b[4..8], &2.5f32.to_bits().to_le_bytes());
    assert_eq!(&b[8..12], &(-3.0f32).to_bits().to_le_bytes());
    assert_eq!(&b[12..16], &0.5f32.to_bits().to_le_bytes());
    assert_eq!(&b[16..20], &4.0f32.to_bits().to_le_bytes());
    assert_eq!(&b[20..24], &0.25f32.to_bits().to_le_bytes());
    assert_eq!(&b[24..28], &0.125f32.to_bits().to_le_bytes());
    assert_eq!(&b[28..32], &0.25f32.to_bits().to_le_bytes());
    assert_eq!(&b[32..36], &0.5f32.to_bits().to_le_bytes());
    assert_eq!(&b[36..40], &0.75f32.to_bits().to_le_bytes());
    // id in the low half-word, then dims, then flags
    assert_eq!(&b[40..44], &[0xCD, 0xAB, 7, 9]);
}

#[test]
fn sprite_attrib_offsets_match_packed_layout() {
    let t = sprite_attribs();
    assert_eq!(t.len(), 5);
    let offsets: Vec<u32> = t.iter().map(|a| a.offset).collect();
    assert_eq!(offsets, vec![0, 12, 20, 24, 40]);
    let sizes: Vec<u32> = t.iter().map(|a| a.size).collect();
    assert_eq!(sizes, vec![3, 2, 1, 4, 1]);
    let indexes: Vec<u32> = t.iter().map(|a| a.index).collect();
    assert_eq!(indexes, vec![0, 1, 2, 3, 4]);
    assert!(matches!(t[0].kind, AttribKind::Float));
    assert!(matches!(t[4].kind, AttribKind::UInt));
}

#[test]
fn sprite_batch_is_one_stride_per_record() {
    let s = sample_sprite();
    let d = RenderSprite::default();
    let batch = pack_sprites(&vec![s, d]);
    assert_eq!(batch.len(), 88);
    assert_eq!(&batch[0..44], &pack_sprite(&sample_sprite())[..]);
    assert_eq!(&batch[44..88], &pack_sprite(&RenderSprite::default())[..]);
    assert_eq!(pack_sprites(&vec![]).len(), 0);
}

#[test]
fn light_packing_and_attribs() {
    let l = RenderLight { position: (bits(10.0), bits(20.0)), intensity: bits(100.0) };
    let b = pack_lights(&vec![l]);
    assert_eq!(b.len(), 12);
    assert_eq!(&b[0..4], &10.0f32.to_bits().to_le_bytes());
    assert_eq!(&b[4..8], &20.0f32.to_bits().to_le_bytes());
    assert_eq!(&b[8..12], &100.0f32.to_bits().to_le_bytes());

    let t = light_attribs();
    assert_eq!(t.len(), 2);
    assert_eq!(t[0].offset, 0);
    assert_eq!(t[0].size, 2);
    assert_eq!(t[1].offset, 8);
    assert_eq!(t[1].size, 1);
}

#[test]
fn screen_quad_bytes() {
    let q = pack_screen_quad();
    assert_eq!(q.len(), 64);
    let words: Vec<f32> = q
        .chunks(4)
        .map(|c| f32::from_bits(u32::from_le_bytes([c[0], c[1], c[2], c[3]])))
        .collect();
    let expected: Vec<f32> = vec![
        1.0, 1.0, 1.0, 1.0, //
        1.0, -1.0, 1.0, 0.0, //
        -1.0, -1.0, 0.0, 0.0, //
        -1.0, 1.0, 0.0, 1.0,
    ];
    assert_eq!(words, expected);

    let i = pack_quad_indices();
    assert_eq!(i.len(), 24);
    let idx: Vec<u32> = i.chunks(4).map(|c| u32::from_le_bytes([c[0], c[1], c[2], c[3]])).collect();
    assert_eq!(idx, vec![0, 1, 3, 1, 2, 3]);
}
