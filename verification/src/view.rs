//! The orchestrator: staged construction of a fractal view and the mutation
//! and draw operations that keep the GPU-visible parameters in sync.
//!
//! The GPU is an external collaborator. The [`Builder`] consumes the outcome
//! of each GPU step (allocation succeeded or not, compile or link status and
//! driver log, which uniforms resolved) and decides whether the pipeline
//! advances, which typed error aborts it, and — on abort — exactly which
//! already-acquired resources the host must release. A finished [`FractalView`]
//! answers every mutation with the uniform write the host must apply, and
//! mirrors the GPU-visible uniform values so that staleness is ruled out by
//! contract: after every operation the mirror equals the view parameters.
//!
//! Zoom and offset are floating-point values on the host; the library carries
//! them as their raw bit patterns, which it stores and forwards unchanged.

use vstd::prelude::*;

use crate::MAX_ITERATIONS;
use crate::errors::FractalError;
use crate::geometry::QUAD_INDEX_COUNT;
use crate::geometry::quad_indices;
use crate::geometry::spec_quad_indices;

verus! {

/// A single uniform write the host must apply to the GPU. Zoom and offset
/// components are the raw bit patterns of the host's 32-bit float values;
/// the aspect write carries the surface size whose width-over-height ratio
/// the host uploads.
#[derive(Clone, Copy, PartialEq, Eq, Structural, Debug)]
pub enum UniformWrite {
    Aspect { width: u32, height: u32 },
    MaxIter { iters: i32 },
    Zoom { bits: u32 },
    Offset { x_bits: u32, y_bits: u32 },
}

/// A GPU viewport update to the surface's pixel size.
#[derive(Clone, Copy, PartialEq, Eq, Structural, Debug)]
pub struct Viewport {
    pub width: u32,
    pub height: u32,
}

/// The draw command of one frame: how many quad indices to draw as triangles.
#[derive(Clone, Copy, PartialEq, Eq, Structural, Debug)]
pub struct DrawCall {
    pub index_count: usize,
}

/// The host-side view parameters, as supplied by the host.
#[derive(Clone, Copy, PartialEq, Eq, Structural, Debug)]
pub struct ViewParams {
    pub zoom_bits: u32,
    pub x_bits: u32,
    pub y_bits: u32,
    pub iterations: i32,
    pub width: u32,
    pub height: u32,
}

/// Mirror of the uniform values the GPU currently holds: what the program
/// would render with if drawn now.
#[derive(Clone, Copy, PartialEq, Eq, Structural, Debug)]
pub struct GpuUniforms {
    pub aspect_width: u32,
    pub aspect_height: u32,
    pub max_iter: i32,
    pub zoom_bits: u32,
    pub x_bits: u32,
    pub y_bits: u32,
}

/// The uniform values a parameter set pushes to the GPU.
pub open spec fn spec_uniforms_of(p: ViewParams) -> GpuUniforms {
    GpuUniforms {
        aspect_width: p.width,
        aspect_height: p.height,
        max_iter: p.iterations,
        zoom_bits: p.zoom_bits,
        x_bits: p.x_bits,
        y_bits: p.y_bits,
    }
}

/// The four initial uniform writes, in the order construction pushes them.
pub open spec fn spec_initial_writes(p: ViewParams) -> Seq<UniformWrite> {
    seq![
        UniformWrite::Aspect { width: p.width, height: p.height },
        UniformWrite::MaxIter { iters: p.iterations },
        UniformWrite::Zoom { bits: p.zoom_bits },
        UniformWrite::Offset { x_bits: p.x_bits, y_bits: p.y_bits },
    ]
}

/// The GPU state after the host applies one uniform write: the written
/// slot carries the write's value, every other slot is untouched.
pub open spec fn spec_apply_write(g: GpuUniforms, w: UniformWrite) -> GpuUniforms {
    match w {
        UniformWrite::Aspect { width, height } => GpuUniforms {
            aspect_width: width,
            aspect_height: height,
            ..g
        },
        UniformWrite::MaxIter { iters } => GpuUniforms { max_iter: iters, ..g },
        UniformWrite::Zoom { bits } => GpuUniforms { zoom_bits: bits, ..g },
        UniformWrite::Offset { x_bits, y_bits } => GpuUniforms { x_bits, y_bits, ..g },
    }
}

/// The GPU state after the host applies a list of writes, first to last.
pub open spec fn spec_apply_writes(g: GpuUniforms, ws: Seq<UniformWrite>) -> GpuUniforms
    decreases ws.len(),
{
    if ws.len() == 0 {
        g
    } else {
        spec_apply_writes(spec_apply_write(g, ws[0]), ws.subrange(1, ws.len() as int))
    }
}

/// A ready fractal view: parameters plus the mirror of GPU-visible state.
#[derive(Clone, Copy, PartialEq, Eq, Structural, Debug)]
pub struct FractalView {
    pub params: ViewParams,
    pub gpu: GpuUniforms,
}

impl FractalView {
    /// The GPU-visible uniforms agree with the view parameters: no field is
    /// stale. Every operation of a well-formed view preserves this.
    pub open spec fn synced(self) -> bool {
        self.gpu == spec_uniforms_of(self.params)
    }

    /// Invariant of every constructed view: in sync and within the
    /// iteration ceiling.
    pub open spec fn well_formed(self) -> bool {
        &&& self.params.iterations <= MAX_ITERATIONS
        &&& self.synced()
    }

    /// State after a zoom update: parameter and mirror both carry the new
    /// bits.
    pub open spec fn spec_set_zoom(self, bits: u32) -> FractalView {
        FractalView {
            params: ViewParams { zoom_bits: bits, ..self.params },
            gpu: GpuUniforms { zoom_bits: bits, ..self.gpu },
        }
    }

    /// State after a position update.
    pub open spec fn spec_set_position(self, x_bits: u32, y_bits: u32) -> FractalView {
        FractalView {
            params: ViewParams { x_bits, y_bits, ..self.params },
            gpu: GpuUniforms { x_bits, y_bits, ..self.gpu },
        }
    }

    /// State after an iteration-depth update.
    pub open spec fn spec_set_iterations(self, n: i32) -> FractalView {
        FractalView {
            params: ViewParams { iterations: n, ..self.params },
            gpu: GpuUniforms { max_iter: n, ..self.gpu },
        }
    }

    /// State after a surface resize.
    pub open spec fn spec_resize(self, width: u32, height: u32) -> FractalView {
        FractalView {
            params: ViewParams { width, height, ..self.params },
            gpu: GpuUniforms { aspect_width: width, aspect_height: height, ..self.gpu },
        }
    }

    /// One draw step at the model level: the emitted command and the state
    /// after the draw, which is the state before it.
    pub open spec fn spec_draw_step(self) -> (DrawCall, FractalView) {
        (DrawCall { index_count: QUAD_INDEX_COUNT }, self)
    }

    /// Updates the zoom level and returns the one uniform write that makes
    /// it GPU-visible. Infallible once constructed.
    pub fn set_zoom(&mut self, bits: u32) -> (w: UniformWrite)
        ensures
            *final(self) == old(self).spec_set_zoom(bits),
            w == (UniformWrite::Zoom { bits }),
    {
        self.params.zoom_bits = bits;
        self.gpu.zoom_bits = bits;
        UniformWrite::Zoom { bits }
    }

    /// Updates the pan offset and returns its uniform write.
    pub fn set_position(&mut self, x_bits: u32, y_bits: u32) -> (w: UniformWrite)
        ensures
            *final(self) == old(self).spec_set_position(x_bits, y_bits),
            w == (UniformWrite::Offset { x_bits, y_bits }),
    {
        self.params.x_bits = x_bits;
        self.gpu.x_bits = x_bits;
        self.params.y_bits = y_bits;
        self.gpu.y_bits = y_bits;
        UniformWrite::Offset { x_bits, y_bits }
    }

    /// Updates the iteration depth. Succeeds exactly on values within the
    /// ceiling; above it the view is left untouched and the range error is
    /// returned.
    pub fn set_iterations(&mut self, n: i32) -> (r: Result<UniformWrite, FractalError>)
        ensures
            r is Ok <==> n <= MAX_ITERATIONS,
            n <= MAX_ITERATIONS ==> *final(self) == old(self).spec_set_iterations(n),
            (r matches Result::Ok(w) ==> w == (UniformWrite::MaxIter { iters: n })),
            n > MAX_ITERATIONS ==> *final(self) == *old(self),
            (r matches Result::Err(e) ==> (e matches FractalError::IterationRange {
                requested,
                max,
            } && requested == n && max == MAX_ITERATIONS)),
    {
        if !crate::iterations_in_range(n) {
            Result::Err(FractalError::IterationRange { requested: n, max: MAX_ITERATIONS })
        } else {
            self.params.iterations = n;
            self.gpu.max_iter = n;
            Result::Ok(UniformWrite::MaxIter { iters: n })
        }
    }

    /// Records the surface's new pixel size and returns the two required,
    /// independent effects: the aspect uniform write and the viewport
    /// update. The host computes the width-over-height float from the
    /// returned size.
    pub fn resize(&mut self, width: u32, height: u32) -> (r: (UniformWrite, Viewport))
        ensures
            *final(self) == old(self).spec_resize(width, height),
            r.0 == (UniformWrite::Aspect { width, height }),
            r.1 == (Viewport { width, height }),
    {
        self.params.width = width;
        self.gpu.aspect_width = width;
        self.params.height = height;
        self.gpu.aspect_height = height;
        (UniformWrite::Aspect { width, height }, Viewport { width, height })
    }

    /// The per-frame draw command: all six quad indices as triangles. Reads
    /// the view only; mutates nothing.
    pub fn draw(&self) -> (r: DrawCall)
        ensures
            r == self.spec_draw_step().0,
            r.index_count == spec_quad_indices().len(),
    {
        proof {
            crate::geometry::lemma_quad_indices_in_bounds();
        }
        DrawCall { index_count: QUAD_INDEX_COUNT }
    }

    /// The index data this view draws with: the fixed quad index list,
    /// whatever the view's parameters are.
    pub fn index_data(&self) -> (v: Vec<u16>)
        ensures
            v@ == spec_quad_indices(),
    {
        quad_indices()
    }
}

} // verus!
