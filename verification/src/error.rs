//! Typed initialization errors.
//!
//! Initialization failures are surfaced to the caller of `init`; none are
//! retried here.  Render-time mis-sequencing (a render before a successful
//! init) is deliberately not an error: the pass silently skips drawing.

use vstd::prelude::*;

verus! {

/// The shader build step that failed.
#[derive(Clone, Copy, Debug, PartialEq, Eq, Structural)]
pub enum ShaderStage {
    Vertex,
    Fragment,
    Geometry,
    Link,
}

/// Everything that can go wrong while initializing a render pass.
#[derive(Clone, Copy, Debug, PartialEq, Eq, Structural)]
pub enum EngineError {
    /// `init` ran before the GPU entry points were loaded; it should only be
    /// called by the engine, after context creation.
    BindingsNotLoaded,
    /// The atlas or font image bytes could not be decoded as an 8-bit image.
    AtlasDecodeFailed,
    /// The atlas or font image decoded to a pixel layout other than RGBA
    /// (for example grayscale, or a palette expanded to RGB).
    AtlasNotRgba,
    /// A shader stage failed to compile, or the program failed to link.
    ShaderBuild(ShaderStage),
}

/// The message each failure is described with.
pub open spec fn message_of(e: EngineError) -> Seq<char> {
    match e {
        EngineError::BindingsNotLoaded => "renderer init called before gl bindings were loaded; init should only be called by the engine"@,
        EngineError::AtlasDecodeFailed => "failed to decode the texture atlas; ensure the atlas is a RGBA image"@,
        EngineError::AtlasNotRgba => "the texture atlas is not in RGBA pixel layout"@,
        EngineError::ShaderBuild(ShaderStage::Vertex) => "the vertex shader failed to compile"@,
        EngineError::ShaderBuild(ShaderStage::Fragment) => "the fragment shader failed to compile"@,
        EngineError::ShaderBuild(ShaderStage::Geometry) => "the geometry shader failed to compile"@,
        EngineError::ShaderBuild(ShaderStage::Link) => "the shader program failed to link"@,
    }
}

impl EngineError {
    /// A human-readable account of the failure.
    pub fn describe(&self) -> (r: &'static str)
        ensures
            r@ == message_of(*self),
    {
        match self {
            EngineError::BindingsNotLoaded => "renderer init called before gl bindings were loaded; init should only be called by the engine",
            EngineError::AtlasDecodeFailed => "failed to decode the texture atlas; ensure the atlas is a RGBA image",
            EngineError::AtlasNotRgba => "the texture atlas is not in RGBA pixel layout",
            EngineError::ShaderBuild(ShaderStage::Vertex) => "the vertex shader failed to compile",
            EngineError::ShaderBuild(ShaderStage::Fragment) => "the fragment shader failed to compile",
            EngineError::ShaderBuild(ShaderStage::Geometry) => "the geometry shader failed to compile",
            EngineError::ShaderBuild(ShaderStage::Link) => "the shader program failed to link",
        }
    }
}

} // verus!
