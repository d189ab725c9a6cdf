//! Typed errors of the construction pipeline and the mutation operations.

use vstd::prelude::*;

use crate::uniforms::UniformSlot;

verus! {

/// The two shader pipeline stages a source text can be compiled for.
#[derive(Clone, Copy, PartialEq, Eq, Structural, Debug)]
pub enum ShaderStage {
    Vertex,
    Fragment,
}

/// The GPU-resident objects the construction pipeline allocates, listed in
/// the order the pipeline allocates them.
#[derive(Clone, Copy, PartialEq, Eq, Structural, Debug)]
pub enum ResourceKind {
    VertexShader,
    FragmentShader,
    Program,
    PositionBuffer,
    TexCoordBuffer,
    IndexBuffer,
}

impl ShaderStage {
    /// The resource that holds a compiled shader object of this stage.
    pub open spec fn spec_resource(self) -> ResourceKind {
        match self {
            ShaderStage::Vertex => ResourceKind::VertexShader,
            ShaderStage::Fragment => ResourceKind::FragmentShader,
        }
    }

    /// Executable twin of [`ShaderStage::spec_resource`].
    pub fn resource(self) -> (r: ResourceKind)
        ensures
            r == self.spec_resource(),
    {
        match self {
            ShaderStage::Vertex => ResourceKind::VertexShader,
            ShaderStage::Fragment => ResourceKind::FragmentShader,
        }
    }
}

/// Every failure the library can report. Construction surfaces the first
/// failing stage as one of these; after construction only
/// [`FractalError::IterationRange`] can occur.
#[derive(PartialEq, Eq, Debug)]
pub enum FractalError {
    /// A shader stage failed to compile; `log` carries the driver's
    /// diagnostic text, or a fallback message when the driver gave none or
    /// an empty one.
    ShaderCompile { stage: ShaderStage, log: String },
    /// The program failed to link; `log` as above.
    ProgramLink { log: String },
    /// The GPU could not allocate the named object.
    ResourceAllocation { kind: ResourceKind },
    /// The linked program does not declare every recognized uniform;
    /// `slots` lists exactly the missing ones, in canonical order.
    MissingUniform { slots: Vec<UniformSlot> },
    /// An iteration count above the fixed ceiling was requested.
    IterationRange { requested: i32, max: i32 },
}

/// Diagnostic text used when a compile failure comes without a driver
/// log, or with an empty one.
pub open spec fn spec_compile_fallback_log() -> Seq<char> {
    "unknown error creating shader"@
}

/// Diagnostic text used when a link failure comes without a driver log,
/// or with an empty one.
pub open spec fn spec_link_fallback_log() -> Seq<char> {
    "Unknown error creating program object"@
}

/// Both fallback texts are non-empty: a compile or link error built without
/// a driver log still carries a non-empty diagnostic.
pub proof fn lemma_fallback_logs_nonempty()
    ensures
        spec_compile_fallback_log().len() > 0,
        spec_link_fallback_log().len() > 0,
{
    reveal_strlit("unknown error creating shader");
    reveal_strlit("Unknown error creating program object");
}

/// The driver's log when it produced a non-empty one, else the given
/// fallback: an error never carries an empty diagnostic.
pub open spec fn spec_log_or(log: Option<String>, fallback: Seq<char>) -> Seq<char> {
    match log {
        Option::Some(l) => if l@.len() > 0 {
            l@
        } else {
            fallback
        },
        Option::None => fallback,
    }
}

impl FractalError {
    /// Builds the compile error for a failed stage from the driver's log;
    /// its diagnostic is never empty.
    pub fn compile_failure(stage: ShaderStage, log: Option<String>) -> (r: FractalError)
        ensures
            (r matches FractalError::ShaderCompile { stage: s, log: l }
                && s == stage
                && l@ == spec_log_or(log, spec_compile_fallback_log())
                && l@.len() > 0),
    {
        proof {
            lemma_fallback_logs_nonempty();
        }
        match log {
            Option::Some(l) => {
                if l.as_str().is_empty() {
                    FractalError::ShaderCompile {
                        stage,
                        log: String::from_str("unknown error creating shader"),
                    }
                } else {
                    FractalError::ShaderCompile { stage, log: l }
                }
            },
            Option::None => FractalError::ShaderCompile {
                stage,
                log: String::from_str("unknown error creating shader"),
            },
        }
    }

    /// Builds the link error from the driver's log; its diagnostic is
    /// never empty.
    pub fn link_failure(log: Option<String>) -> (r: FractalError)
        ensures
            (r matches FractalError::ProgramLink { log: l }
                && l@ == spec_log_or(log, spec_link_fallback_log())
                && l@.len() > 0),
    {
        proof {
            lemma_fallback_logs_nonempty();
        }
        match log {
            Option::Some(l) => {
                if l.as_str().is_empty() {
                    FractalError::ProgramLink {
                        log: String::from_str("Unknown error creating program object"),
                    }
                } else {
                    FractalError::ProgramLink { log: l }
                }
            },
            Option::None => FractalError::ProgramLink {
                log: String::from_str("Unknown error creating program object"),
            },
        }
    }
}

} // verus!
