//! Verified core of a 2D sprite-and-lighting frame renderer.
//!
//! Per-frame scene state (sprite placements, point lights, on-screen text)
//! is turned into an explicit, inspectable sequence of GPU commands.  The
//! command trace and every decision that produces it are verified; an
//! unverified executor replays the trace against the real graphics API.

use vstd::prelude::*;

mod bind;
pub mod error;
pub mod extract;
pub mod frame;
pub mod gpu;
pub mod image;
pub mod light;
pub mod records;
pub mod shader;
pub mod sprite;
pub mod text;

pub use gpu::AttribKind;
pub use gpu::BlendFactor;
pub use gpu::BufferTarget;
pub use gpu::BufferUsage;
pub use gpu::Capability;
pub use gpu::DrawMode;
pub use gpu::Gpu;
pub use gpu::GpuCmd;
pub use gpu::OrthoView;
pub use gpu::PixelFormat;
pub use gpu::ProgramKind;
pub use gpu::RenderGlyph;
pub use gpu::UniformName;
pub use error::EngineError;
pub use error::ShaderStage;
pub use extract::extract_frame;
pub use frame::entities_fit;
pub use frame::render_frame;
pub use extract::EntityData;
pub use extract::FrameData;
pub use extract::SpriteData;
pub use extract::TextData;
pub use extract::TransformData;
pub use gpu::ColorBits;
pub use image::DecodedImage;
pub use light::LightRenderer;
pub use shader::program_outcome;
pub use sprite::SpriteRenderer;
pub use text::TextRenderer;
pub use records::RenderLight;
pub use records::RenderSprite;
pub use records::RenderString;
pub use records::VertexAttrib;

verus! {

/// Bit pattern of the 32-bit float 1.0, used for default scale and color.
pub const F32_ONE_BITS: u32 = 0x3f80_0000;

/// Bit pattern of the 32-bit float -1.0, used for the fixed screen quad.
pub const F32_NEG_ONE_BITS: u32 = 0xbf80_0000;

/// Bit pattern of the 32-bit float 0.0.
pub const F32_ZERO_BITS: u32 = 0;

} // verus!
