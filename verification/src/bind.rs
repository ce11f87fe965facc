//! GPU binder guard.
//!
//! Render-pass initialization must not run before the process has loaded the
//! GPU entry points; this module holds the one probe of that state.

use vstd::prelude::*;

verus! {

/// Relies on `gl::Viewport::is_loaded`: reports whether the GPU entry points
/// have been loaded (by `gl::load_with`, done by the engine after context
/// creation).  The answer depends on process state, so nothing more is
/// promised of it.
#[verifier::external_body]
pub(crate) fn gl_bindings_loaded() -> bool {
    gl::Viewport::is_loaded()
}

} // verus!
