//! Shader program builder outcome.
//!
//! Stage compilation and linking run on the GPU when the command trace is
//! replayed; the builder's decision rule lives here: any stage failure or a
//! link failure surfaces as a build error naming the step that failed, never
//! as a partially usable program.

use vstd::prelude::*;

use crate::error::EngineError;
use crate::error::ShaderStage;

verus! {

/// Turn per-stage compile results and the link result into the builder's
/// outcome.  `geom_ok` is `None` when the program has no geometry stage.
/// The first failing step is reported: vertex, then fragment, then geometry,
/// then link; a program is usable if and only if every step succeeded.
pub fn program_outcome(vert_ok: bool, frag_ok: bool, geom_ok: Option<bool>, link_ok: bool) -> (r:
    Result<(), EngineError>)
    ensures
        !vert_ok ==> r == Err::<(), EngineError>(EngineError::ShaderBuild(ShaderStage::Vertex)),
        vert_ok && !frag_ok ==> r == Err::<(), EngineError>(
            EngineError::ShaderBuild(ShaderStage::Fragment),
        ),
        vert_ok && frag_ok && geom_ok == Some(false) ==> r == Err::<(), EngineError>(
            EngineError::ShaderBuild(ShaderStage::Geometry),
        ),
        vert_ok && frag_ok && geom_ok != Some(false) && !link_ok ==> r == Err::<(), EngineError>(
            EngineError::ShaderBuild(ShaderStage::Link),
        ),
        vert_ok && frag_ok && geom_ok != Some(false) && link_ok ==> r is Ok,
{
    if !vert_ok {
        Err(EngineError::ShaderBuild(ShaderStage::Vertex))
    } else if !frag_ok {
        Err(EngineError::ShaderBuild(ShaderStage::Fragment))
    } else if matches!(geom_ok, Some(false)) {
        Err(EngineError::ShaderBuild(ShaderStage::Geometry))
    } else if !link_ok {
        Err(EngineError::ShaderBuild(ShaderStage::Link))
    } else {
        Ok(())
    }
}

} // verus!
