//! Verified core of an interactive GPU fractal viewer.
//!
//! The library models the shader-program lifecycle and the uniform-parameter
//! synchronization of a full-screen fractal renderer: construction is a staged
//! pipeline (compile, link, set up quad geometry, resolve uniforms) that
//! aborts on the first failure with a typed error and an exact list of the
//! GPU resources to release, and every mutation of the view parameters is
//! paired with the uniform write that keeps the GPU-visible state in sync.
//! The GPU itself is an external collaborator: a host performs the commands
//! this library emits and feeds their outcomes back in.

use vstd::prelude::*;

mod builder;
mod errors;
mod geometry;
mod laws;
mod uniforms;
mod view;

pub use builder::Acquired;
pub use builder::BuildPhase;
pub use builder::Builder;
pub use errors::FractalError;
pub use errors::ResourceKind;
pub use errors::ShaderStage;
pub use geometry::COMPONENTS_PER_VERTEX;
pub use geometry::POSITION_ATTRIBUTE_SLOT;
pub use geometry::QUAD_INDEX_COUNT;
pub use geometry::QUAD_VERTEX_COUNT;
pub use geometry::TEXCOORD_ATTRIBUTE_SLOT;
pub use geometry::quad_indices;
pub use geometry::quad_positions;
pub use geometry::quad_texcoords;
pub use uniforms::ResolutionOutcome;
pub use uniforms::UniformSlot;
pub use uniforms::recognized_slots;
pub use view::DrawCall;
pub use view::FractalView;
pub use view::GpuUniforms;
pub use view::UniformWrite;
pub use view::ViewParams;
pub use view::Viewport;

verus! {

/// Hard ceiling on the iteration depth: the fragment shader's loop structure
/// assumes at most this many iterations.
pub const MAX_ITERATIONS: i32 = 10000;

/// True exactly when an iteration count is acceptable to the shader.
pub fn iterations_in_range(n: i32) -> (r: bool)
    ensures
        r == (n <= MAX_ITERATIONS),
{
    n <= MAX_ITERATIONS
}

} // verus!
