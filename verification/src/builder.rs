//! The staged construction pipeline of a fractal view.
//!
//! Construction runs compile, link, geometry setup and uniform resolution
//! in a fixed order and aborts on the first failure. The [`Builder`] holds the
//! pipeline's phase and the set of GPU resources acquired so far; the host
//! reports each GPU outcome to the matching method, which either advances
//! the phase or moves it to [`BuildPhase::Failed`] with the typed error.
//! After a failure, [`Builder::abort`] names exactly the acquired resources,
//! newest first, so the host releases everything and dangles nothing.

use vstd::prelude::*;

use crate::MAX_ITERATIONS;
use crate::errors::FractalError;
use crate::errors::ResourceKind;
use crate::errors::ShaderStage;
use crate::errors::spec_compile_fallback_log;
use crate::errors::spec_link_fallback_log;
use crate::errors::spec_log_or;
use crate::uniforms::ResolutionOutcome;
use crate::uniforms::check_resolution;
use crate::uniforms::spec_missing_slots;
use crate::view::FractalView;
use crate::view::GpuUniforms;
use crate::view::UniformWrite;
use crate::view::ViewParams;
use crate::view::spec_initial_writes;

verus! {

/// Where the construction pipeline stands. The phases follow the fixed
/// order of the pipeline; `Failed` is terminal but for [`Builder::abort`].
#[derive(Clone, Copy, PartialEq, Eq, Structural, Debug)]
pub enum BuildPhase {
    Validated,
    VertexShaderAllocated,
    VertexShaderCompiled,
    FragmentShaderAllocated,
    FragmentShaderCompiled,
    ProgramAllocated,
    Linked,
    PositionBufferReady,
    TexCoordBufferReady,
    GeometryComplete,
    Complete,
    Failed,
}

/// Which GPU resources the pipeline has acquired and not yet handed off or
/// released.
#[derive(Clone, Copy, PartialEq, Eq, Structural, Debug)]
pub struct Acquired {
    pub vertex_shader: bool,
    pub fragment_shader: bool,
    pub program: bool,
    pub position_buffer: bool,
    pub tex_coord_buffer: bool,
    pub index_buffer: bool,
}

impl Acquired {
    /// No resource acquired yet.
    pub open spec fn spec_none() -> Acquired {
        Acquired {
            vertex_shader: false,
            fragment_shader: false,
            program: false,
            position_buffer: false,
            tex_coord_buffer: false,
            index_buffer: false,
        }
    }

    /// Whether the given resource is currently held.
    pub open spec fn holds(self, k: ResourceKind) -> bool {
        match k {
            ResourceKind::VertexShader => self.vertex_shader,
            ResourceKind::FragmentShader => self.fragment_shader,
            ResourceKind::Program => self.program,
            ResourceKind::PositionBuffer => self.position_buffer,
            ResourceKind::TexCoordBuffer => self.tex_coord_buffer,
            ResourceKind::IndexBuffer => self.index_buffer,
        }
    }

    /// The same set with one more resource held.
    pub open spec fn with(self, k: ResourceKind) -> Acquired {
        match k {
            ResourceKind::VertexShader => Acquired { vertex_shader: true, ..self },
            ResourceKind::FragmentShader => Acquired { fragment_shader: true, ..self },
            ResourceKind::Program => Acquired { program: true, ..self },
            ResourceKind::PositionBuffer => Acquired { position_buffer: true, ..self },
            ResourceKind::TexCoordBuffer => Acquired { tex_coord_buffer: true, ..self },
            ResourceKind::IndexBuffer => Acquired { index_buffer: true, ..self },
        }
    }
}

/// The resources to release after a failure, newest acquisition first.
pub open spec fn spec_release_list(a: Acquired) -> Seq<ResourceKind> {
    (if a.index_buffer {
        seq![ResourceKind::IndexBuffer]
    } else {
        Seq::<ResourceKind>::empty()
    }) + (if a.tex_coord_buffer {
        seq![ResourceKind::TexCoordBuffer]
    } else {
        Seq::<ResourceKind>::empty()
    }) + (if a.position_buffer {
        seq![ResourceKind::PositionBuffer]
    } else {
        Seq::<ResourceKind>::empty()
    }) + (if a.program {
        seq![ResourceKind::Program]
    } else {
        Seq::<ResourceKind>::empty()
    }) + (if a.fragment_shader {
        seq![ResourceKind::FragmentShader]
    } else {
        Seq::<ResourceKind>::empty()
    }) + (if a.vertex_shader {
        seq![ResourceKind::VertexShader]
    } else {
        Seq::<ResourceKind>::empty()
    })
}

/// The construction pipeline's state between two GPU steps.
#[derive(Clone, Copy, PartialEq, Eq, Structural, Debug)]
pub struct Builder {
    pub params: ViewParams,
    pub phase: BuildPhase,
    pub acquired: Acquired,
}

/// The phase in which a shader object of the given stage is allocated.
pub open spec fn spec_shader_alloc_pre(stage: ShaderStage) -> BuildPhase {
    match stage {
        ShaderStage::Vertex => BuildPhase::Validated,
        ShaderStage::Fragment => BuildPhase::VertexShaderCompiled,
    }
}

/// The phase after a shader object of the given stage is allocated.
pub open spec fn spec_shader_allocated(stage: ShaderStage) -> BuildPhase {
    match stage {
        ShaderStage::Vertex => BuildPhase::VertexShaderAllocated,
        ShaderStage::Fragment => BuildPhase::FragmentShaderAllocated,
    }
}

/// The phase after a shader of the given stage compiled successfully.
pub open spec fn spec_shader_compiled(stage: ShaderStage) -> BuildPhase {
    match stage {
        ShaderStage::Vertex => BuildPhase::VertexShaderCompiled,
        ShaderStage::Fragment => BuildPhase::FragmentShaderCompiled,
    }
}

/// The phase in which a buffer of the given kind is allocated, if it is one
/// of the three quad buffers.
pub open spec fn spec_buffer_pre(kind: ResourceKind) -> Option<BuildPhase> {
    match kind {
        ResourceKind::PositionBuffer => Option::Some(BuildPhase::Linked),
        ResourceKind::TexCoordBuffer => Option::Some(BuildPhase::PositionBufferReady),
        ResourceKind::IndexBuffer => Option::Some(BuildPhase::TexCoordBufferReady),
        _ => Option::None,
    }
}

/// The phase after a buffer of the given kind is ready.
pub open spec fn spec_buffer_post(kind: ResourceKind) -> BuildPhase {
    match kind {
        ResourceKind::PositionBuffer => BuildPhase::PositionBufferReady,
        ResourceKind::TexCoordBuffer => BuildPhase::TexCoordBufferReady,
        _ => BuildPhase::GeometryComplete,
    }
}

impl Builder {
    /// Holds of every builder the pipeline can produce.
    pub open spec fn inv(self) -> bool {
        self.params.iterations <= MAX_ITERATIONS
    }

    /// The same pipeline state with its phase advanced.
    pub open spec fn spec_advanced(self, phase: BuildPhase) -> Builder {
        Builder { phase, ..self }
    }

    /// The same pipeline state moved to the terminal failure phase.
    pub open spec fn spec_failed(self) -> Builder {
        Builder { phase: BuildPhase::Failed, ..self }
    }

    /// The same pipeline state with one more resource acquired.
    pub open spec fn spec_acquire(self, phase: BuildPhase, k: ResourceKind) -> Builder {
        Builder { phase, acquired: self.acquired.with(k), ..self }
    }

    /// Validates the requested parameters before anything touches the GPU.
    /// Succeeds exactly when the iteration depth is within the ceiling;
    /// above it, construction fails with the range error and no resource
    /// was acquired.
    pub fn new(
        zoom_bits: u32,
        x_bits: u32,
        y_bits: u32,
        iterations: i32,
        width: u32,
        height: u32,
    ) -> (r: Result<Builder, FractalError>)
        ensures
            r is Ok <==> iterations <= MAX_ITERATIONS,
            (r matches Result::Ok(b) ==> b == (Builder {
                params: ViewParams { zoom_bits, x_bits, y_bits, iterations, width, height },
                phase: BuildPhase::Validated,
                acquired: Acquired::spec_none(),
            })),
            (r matches Result::Err(e) ==> (e matches FractalError::IterationRange {
                requested,
                max,
            } && requested == iterations && max == MAX_ITERATIONS)),
    {
        if !crate::iterations_in_range(iterations) {
            Result::Err(
                FractalError::IterationRange { requested: iterations, max: MAX_ITERATIONS },
            )
        } else {
            Result::Ok(
                Builder {
                    params: ViewParams { zoom_bits, x_bits, y_bits, iterations, width, height },
                    phase: BuildPhase::Validated,
                    acquired: Acquired {
                        vertex_shader: false,
                        fragment_shader: false,
                        program: false,
                        position_buffer: false,
                        tex_coord_buffer: false,
                        index_buffer: false,
                    },
                },
            )
        }
    }

    /// Consumes the outcome of allocating a shader object for the given
    /// stage. On success the stage's object is recorded as acquired; on
    /// allocation failure the pipeline fails with the resource error.
    pub fn shader_allocated(&mut self, stage: ShaderStage, created: bool) -> (r: Result<
        (),
        FractalError,
    >)
        requires
            old(self).phase == spec_shader_alloc_pre(stage),
        ensures
            r is Ok <==> created,
            created ==> *final(self) == old(self).spec_acquire(
                spec_shader_allocated(stage),
                stage.spec_resource(),
            ),
            !created ==> *final(self) == old(self).spec_failed(),
            (r matches Result::Err(e) ==> (e matches FractalError::ResourceAllocation { kind }
                && kind == stage.spec_resource())),
    {
        if created {
            match stage {
                ShaderStage::Vertex => {
                    self.acquired.vertex_shader = true;
                },
                ShaderStage::Fragment => {
                    self.acquired.fragment_shader = true;
                },
            }
            self.phase = match stage {
                ShaderStage::Vertex => BuildPhase::VertexShaderAllocated,
                ShaderStage::Fragment => BuildPhase::FragmentShaderAllocated,
            };
            Result::Ok(())
        } else {
            self.phase = BuildPhase::Failed;
            Result::Err(FractalError::ResourceAllocation { kind: stage.resource() })
        }
    }

    /// Consumes a stage's compile status and driver log. Failure is always
    /// attributable to the source text: the pipeline fails with a compile
    /// error naming the stage and carrying the driver's log, or the
    /// fallback message when the driver gave none or an empty one. The failed shader object
    /// stays acquired and is named by a later [`Builder::abort`].
    pub fn compile_finished(
        &mut self,
        stage: ShaderStage,
        status: bool,
        log: Option<String>,
    ) -> (r: Result<(), FractalError>)
        requires
            old(self).phase == spec_shader_allocated(stage),
        ensures
            r is Ok <==> status,
            status ==> *final(self) == old(self).spec_advanced(spec_shader_compiled(stage)),
            !status ==> *final(self) == old(self).spec_failed(),
            (r matches Result::Err(e) ==> (e matches FractalError::ShaderCompile {
                stage: s,
                log: l,
            } && s == stage && l@ == spec_log_or(log, spec_compile_fallback_log())
                && l@.len() > 0)),
    {
        if status {
            self.phase = match stage {
                ShaderStage::Vertex => BuildPhase::VertexShaderCompiled,
                ShaderStage::Fragment => BuildPhase::FragmentShaderCompiled,
            };
            Result::Ok(())
        } else {
            self.phase = BuildPhase::Failed;
            Result::Err(FractalError::compile_failure(stage, log))
        }
    }

    /// Consumes the outcome of allocating the program object.
    pub fn program_allocated(&mut self, created: bool) -> (r: Result<(), FractalError>)
        requires
            old(self).phase == BuildPhase::FragmentShaderCompiled,
        ensures
            r is Ok <==> created,
            created ==> *final(self) == old(self).spec_acquire(
                BuildPhase::ProgramAllocated,
                ResourceKind::Program,
            ),
            !created ==> *final(self) == old(self).spec_failed(),
            (r matches Result::Err(e) ==> (e matches FractalError::ResourceAllocation { kind }
                && kind == ResourceKind::Program)),
    {
        if created {
            self.acquired.program = true;
            self.phase = BuildPhase::ProgramAllocated;
            Result::Ok(())
        } else {
            self.phase = BuildPhase::Failed;
            Result::Err(FractalError::ResourceAllocation { kind: ResourceKind::Program })
        }
    }

    /// Consumes the link status and driver log. On success the compiled
    /// shader objects are attached to the program and no longer needed:
    /// ownership is back with the host, which must release them now — they
    /// leave the acquired set and a later abort will not name them. On
    /// failure the pipeline fails with the link error and keeps them
    /// acquired.
    pub fn link_finished(&mut self, status: bool, log: Option<String>) -> (r: Result<
        (),
        FractalError,
    >)
        requires
            old(self).phase == BuildPhase::ProgramAllocated,
        ensures
            r is Ok <==> status,
            status ==> *final(self) == (Builder {
                phase: BuildPhase::Linked,
                acquired: Acquired {
                    vertex_shader: false,
                    fragment_shader: false,
                    ..old(self).acquired
                },
                ..*old(self)
            }),
            !status ==> *final(self) == old(self).spec_failed(),
            (r matches Result::Err(e) ==> (e matches FractalError::ProgramLink { log: l } && l@
                == spec_log_or(log, spec_link_fallback_log()) && l@.len() > 0)),
    {
        if status {
            self.acquired.vertex_shader = false;
            self.acquired.fragment_shader = false;
            self.phase = BuildPhase::Linked;
            Result::Ok(())
        } else {
            self.phase = BuildPhase::Failed;
            Result::Err(FractalError::link_failure(log))
        }
    }

    /// Consumes the uniform resolution outcome, the pipeline's last stage.
    /// All-or-nothing: succeeds exactly when every recognized slot was
    /// found, completing the pipeline and returning the four initial
    /// uniform writes, in push order, that establish the GPU-visible
    /// parameters; otherwise fails with the error naming exactly the
    /// missing slots.
    pub fn uniforms_resolved(&mut self, o: ResolutionOutcome) -> (r: Result<
        Vec<UniformWrite>,
        FractalError,
    >)
        requires
            old(self).phase == BuildPhase::GeometryComplete,
        ensures
            r is Ok <==> o.all_found(),
            o.all_found() ==> *final(self) == old(self).spec_advanced(BuildPhase::Complete),
            !o.all_found() ==> *final(self) == old(self).spec_failed(),
            (r matches Result::Ok(ws) ==> ws@ == spec_initial_writes(old(self).params)),
            (r matches Result::Err(e) ==> (e matches FractalError::MissingUniform { slots }
                && slots@ == spec_missing_slots(o))),
    {
        match check_resolution(o) {
            Result::Ok(()) => {
                self.phase = BuildPhase::Complete;
                let mut ws: Vec<UniformWrite> = Vec::new();
                ws.push(
                    UniformWrite::Aspect {
                        width: self.params.width,
                        height: self.params.height,
                    },
                );
                ws.push(UniformWrite::MaxIter { iters: self.params.iterations });
                ws.push(UniformWrite::Zoom { bits: self.params.zoom_bits });
                ws.push(
                    UniformWrite::Offset { x_bits: self.params.x_bits, y_bits: self.params.y_bits },
                );
                proof {
                    assert(ws@ =~= spec_initial_writes(old(self).params));
                }
                Result::Ok(ws)
            },
            Result::Err(e) => {
                self.phase = BuildPhase::Failed;
                Result::Err(e)
            },
        }
    }

    /// Consumes the outcome of allocating one of the three quad buffers.
    /// The buffers are set up in the fixed order position, texture
    /// coordinates, indices; the index buffer completes the geometry, and
    /// uniform resolution follows.
    pub fn buffer_allocated(&mut self, kind: ResourceKind, created: bool) -> (r: Result<
        (),
        FractalError,
    >)
        requires
            spec_buffer_pre(kind) == Option::Some(old(self).phase),
        ensures
            r is Ok <==> created,
            created ==> *final(self) == old(self).spec_acquire(spec_buffer_post(kind), kind),
            !created ==> *final(self) == old(self).spec_failed(),
            (r matches Result::Err(e) ==> (e matches FractalError::ResourceAllocation { kind: k }
                && k == kind)),
    {
        if created {
            match kind {
                ResourceKind::PositionBuffer => {
                    self.acquired.position_buffer = true;
                    self.phase = BuildPhase::PositionBufferReady;
                },
                ResourceKind::TexCoordBuffer => {
                    self.acquired.tex_coord_buffer = true;
                    self.phase = BuildPhase::TexCoordBufferReady;
                },
                _ => {
                    self.acquired.index_buffer = true;
                    self.phase = BuildPhase::GeometryComplete;
                },
            }
            Result::Ok(())
        } else {
            self.phase = BuildPhase::Failed;
            Result::Err(FractalError::ResourceAllocation { kind })
        }
    }

    /// Turns a completed pipeline into the ready view. The view starts in
    /// sync: the initial writes returned by [`Builder::uniforms_resolved`],
    /// the pipeline's last stage, made every parameter GPU-visible.
    pub fn finish(self) -> (v: FractalView)
        requires
            self.phase == BuildPhase::Complete,
            self.inv(),
        ensures
            v.params == self.params,
            v.well_formed(),
    {
        FractalView {
            params: self.params,
            gpu: GpuUniforms {
                aspect_width: self.params.width,
                aspect_height: self.params.height,
                max_iter: self.params.iterations,
                zoom_bits: self.params.zoom_bits,
                x_bits: self.params.x_bits,
                y_bits: self.params.y_bits,
            },
        }
    }

    /// The resources the host must release to unwind this pipeline state,
    /// newest acquisition first. After a failed stage this names exactly
    /// what was acquired and not yet handed off: nothing dangles.
    #[verifier::rlimit(50)]
    pub fn abort(self) -> (r: Vec<ResourceKind>)
        ensures
            r@ == spec_release_list(self.acquired),
            forall|i: int| 0 <= i < r@.len() ==> self.acquired.holds(#[trigger] r@[i]),
    {
        let mut r: Vec<ResourceKind> = Vec::new();
        if self.acquired.index_buffer {
            r.push(ResourceKind::IndexBuffer);
        }
        if self.acquired.tex_coord_buffer {
            r.push(ResourceKind::TexCoordBuffer);
        }
        if self.acquired.position_buffer {
            r.push(ResourceKind::PositionBuffer);
        }
        if self.acquired.program {
            r.push(ResourceKind::Program);
        }
        if self.acquired.fragment_shader {
            r.push(ResourceKind::FragmentShader);
        }
        if self.acquired.vertex_shader {
            r.push(ResourceKind::VertexShader);
        }
        proof {
            assert(r@ =~= spec_release_list(self.acquired));
        }
        r
    }
}

} // verus!
