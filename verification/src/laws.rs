//! Laws of the view model, stated over the spec-level transitions that the
//! executable operations are pinned to.

use vstd::prelude::*;

use crate::MAX_ITERATIONS;
use crate::builder::Builder;
use crate::builder::spec_release_list;
use crate::errors::ResourceKind;
use crate::view::FractalView;
use crate::view::GpuUniforms;
use crate::view::UniformWrite;
use crate::view::ViewParams;
use crate::view::spec_apply_write;
use crate::view::spec_apply_writes;
use crate::view::spec_initial_writes;
use crate::view::spec_uniforms_of;

verus! {

/// Last write wins, with no buffering: two zoom updates in a row leave the
/// view — parameters and GPU-visible mirror alike — exactly as a single
/// update to the second value would, so the draw that follows renders with
/// the second zoom value, not the first.
pub proof fn lemma_zoom_last_write_wins(v: FractalView, z1: u32, z2: u32)
    ensures
        v.spec_set_zoom(z1).spec_set_zoom(z2) == v.spec_set_zoom(z2),
        v.spec_set_zoom(z1).spec_set_zoom(z2).spec_draw_step().1.gpu.zoom_bits == z2,
{
}

/// Drawing is idempotent: a draw step emits a command that is a function of
/// the view alone and leaves the view untouched, so two draws in a row with
/// no intervening mutation issue identical commands over identical state.
pub proof fn lemma_draw_idempotent(v: FractalView)
    ensures
        v.spec_draw_step().1 == v,
        v.spec_draw_step().1.spec_draw_step().0 == v.spec_draw_step().0,
{
}

/// Every mutation immediately re-establishes sync: starting from a view
/// whose GPU mirror agrees with its parameters, each of the four parameter
/// updates leaves the mirror agreeing with the updated parameters — the
/// GPU-visible state is never stale after an operation completes.
pub proof fn lemma_mutations_preserve_sync(
    v: FractalView,
    bits: u32,
    x_bits: u32,
    y_bits: u32,
    n: i32,
    width: u32,
    height: u32,
)
    requires
        v.synced(),
    ensures
        v.spec_set_zoom(bits).synced(),
        v.spec_set_position(x_bits, y_bits).synced(),
        v.spec_set_iterations(n).synced(),
        v.spec_resize(width, height).synced(),
{
}

/// The mutations a well-formed view accepts keep it well formed; the
/// iteration update does so exactly for depths within the ceiling, which is
/// the condition under which `set_iterations` applies it.
pub proof fn lemma_mutations_preserve_well_formed(
    v: FractalView,
    bits: u32,
    x_bits: u32,
    y_bits: u32,
    n: i32,
    width: u32,
    height: u32,
)
    requires
        v.well_formed(),
        n <= MAX_ITERATIONS,
    ensures
        v.spec_set_zoom(bits).well_formed(),
        v.spec_set_position(x_bits, y_bits).well_formed(),
        v.spec_set_iterations(n).well_formed(),
        v.spec_resize(width, height).well_formed(),
{
}

/// Each mutation returns precisely the uniform write that carries the GPU
/// from the old mirror to the new one: a host that applies the returned
/// write keeps the real GPU equal to the mirror the contracts speak of.
pub proof fn lemma_returned_writes_realize_mirror(
    v: FractalView,
    bits: u32,
    x_bits: u32,
    y_bits: u32,
    n: i32,
    width: u32,
    height: u32,
)
    ensures
        spec_apply_write(v.gpu, (UniformWrite::Zoom { bits })) == v.spec_set_zoom(bits).gpu,
        spec_apply_write(v.gpu, (UniformWrite::Offset { x_bits, y_bits })) == v.spec_set_position(
            x_bits,
            y_bits,
        ).gpu,
        spec_apply_write(v.gpu, (UniformWrite::MaxIter { iters: n })) == v.spec_set_iterations(
            n,
        ).gpu,
        spec_apply_write(v.gpu, (UniformWrite::Aspect { width, height })) == v.spec_resize(
            width,
            height,
        ).gpu,
{
}

/// The four initial writes of construction establish the requested
/// parameters on the GPU whatever uniform values it held before: after
/// applying them, first to last, the GPU-visible state is exactly the
/// parameter set's image, as the finished view's invariant asserts.
pub proof fn lemma_initial_writes_establish_sync(g: GpuUniforms, p: ViewParams)
    ensures
        spec_apply_writes(g, spec_initial_writes(p)) == spec_uniforms_of(p),
{
    let ws = spec_initial_writes(p);
    let s1 = ws.subrange(1, 4);
    let s2 = s1.subrange(1, 3);
    let s3 = s2.subrange(1, 2);
    let s4 = s3.subrange(1, 1);
    let g1 = spec_apply_write(g, ws[0]);
    let g2 = spec_apply_write(g1, s1[0]);
    let g3 = spec_apply_write(g2, s2[0]);
    let g4 = spec_apply_write(g3, s3[0]);
    assert(spec_apply_writes(g, ws) == spec_apply_writes(g1, s1));
    assert(spec_apply_writes(g1, s1) == spec_apply_writes(g2, s2));
    assert(spec_apply_writes(g2, s2) == spec_apply_writes(g3, s3));
    assert(spec_apply_writes(g3, s3) == spec_apply_writes(g4, s4));
    assert(s4.len() == 0);
    assert(g4 == spec_uniforms_of(p));
}

/// Unwinding releases exactly what was acquired: the release list of a
/// pipeline state names every resource it holds, nothing it does not hold,
/// and each held resource exactly once — nothing dangles after an abort and
/// nothing is released twice.
#[verifier::rlimit(50)]
pub proof fn lemma_abort_releases_exactly_acquired(b: Builder)
    ensures
        forall|k: ResourceKind|
            b.acquired.holds(k) <==> #[trigger] spec_release_list(b.acquired).contains(k),
        forall|i: int, j: int|
            0 <= i < j < spec_release_list(b.acquired).len() ==> spec_release_list(b.acquired)[i]
                != spec_release_list(b.acquired)[j],
{
    let a = b.acquired;
    let l = spec_release_list(a);
    let n0: int = if a.index_buffer {
        1
    } else {
        0
    };
    let n1: int = n0 + if a.tex_coord_buffer {
        1int
    } else {
        0int
    };
    let n2: int = n1 + if a.position_buffer {
        1int
    } else {
        0int
    };
    let n3: int = n2 + if a.program {
        1int
    } else {
        0int
    };
    let n4: int = n3 + if a.fragment_shader {
        1int
    } else {
        0int
    };
    assert forall|k: ResourceKind| b.acquired.holds(k) implies #[trigger] l.contains(k) by {
        match k {
            ResourceKind::IndexBuffer => assert(l[0] == k),
            ResourceKind::TexCoordBuffer => assert(l[n0] == k),
            ResourceKind::PositionBuffer => assert(l[n1] == k),
            ResourceKind::Program => assert(l[n2] == k),
            ResourceKind::FragmentShader => assert(l[n3] == k),
            ResourceKind::VertexShader => assert(l[n4] == k),
        }
    }
}

} // verus!
