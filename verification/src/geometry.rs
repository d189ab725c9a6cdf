//! The static full-screen quad: four corners, two triangles, six indices.
//!
//! The corner coordinates are exact small integers (positions on the
//! clip-space corners, texture coordinates on the unit square), so the host
//! can convert them losslessly to the GPU's floating-point vertex format.

use vstd::prelude::*;

verus! {

/// Number of corners of the quad.
pub const QUAD_VERTEX_COUNT: u16 = 4;

/// Number of indices drawn per frame: two triangles of three corners each.
pub const QUAD_INDEX_COUNT: usize = 6;

/// Vertex attribute slot the corner positions are bound to.
pub const POSITION_ATTRIBUTE_SLOT: u32 = 0;

/// Vertex attribute slot the texture coordinates are bound to.
pub const TEXCOORD_ATTRIBUTE_SLOT: u32 = 1;

/// Components per corner in both vertex attributes.
pub const COMPONENTS_PER_VERTEX: i32 = 2;

/// The index list `0,1,3, 1,2,3`: the two triangles covering the quad.
pub open spec fn spec_quad_indices() -> Seq<u16> {
    seq![0u16, 1u16, 3u16, 1u16, 2u16, 3u16]
}

/// Corner positions in clip space, two components per corner, traversing
/// bottom-left, bottom-right, top-right, top-left.
pub open spec fn spec_quad_positions() -> Seq<i8> {
    seq![-1i8, -1i8, 1i8, -1i8, 1i8, 1i8, -1i8, 1i8]
}

/// Texture coordinates per corner, same traversal order, on the unit square.
pub open spec fn spec_quad_texcoords() -> Seq<u8> {
    seq![0u8, 0u8, 1u8, 0u8, 1u8, 1u8, 0u8, 1u8]
}

/// Executable twin of [`spec_quad_indices`].
pub fn quad_indices() -> (v: Vec<u16>)
    ensures
        v@ == spec_quad_indices(),
{
    let mut v: Vec<u16> = Vec::new();
    v.push(0);
    v.push(1);
    v.push(3);
    v.push(1);
    v.push(2);
    v.push(3);
    proof {
        assert(v@ =~= spec_quad_indices());
    }
    v
}

/// Executable twin of [`spec_quad_positions`].
pub fn quad_positions() -> (v: Vec<i8>)
    ensures
        v@ == spec_quad_positions(),
{
    let mut v: Vec<i8> = Vec::new();
    v.push(-1);
    v.push(-1);
    v.push(1);
    v.push(-1);
    v.push(1);
    v.push(1);
    v.push(-1);
    v.push(1);
    proof {
        assert(v@ =~= spec_quad_positions());
    }
    v
}

/// Executable twin of [`spec_quad_texcoords`].
pub fn quad_texcoords() -> (v: Vec<u8>)
    ensures
        v@ == spec_quad_texcoords(),
{
    let mut v: Vec<u8> = Vec::new();
    v.push(0);
    v.push(0);
    v.push(1);
    v.push(0);
    v.push(1);
    v.push(1);
    v.push(0);
    v.push(1);
    proof {
        assert(v@ =~= spec_quad_texcoords());
    }
    v
}

/// Both corner attributes carry exactly two components for each of the four
/// corners.
pub proof fn lemma_quad_attribute_layout()
    ensures
        spec_quad_positions().len() == (COMPONENTS_PER_VERTEX as int) * (QUAD_VERTEX_COUNT as int),
        spec_quad_texcoords().len() == (COMPONENTS_PER_VERTEX as int) * (QUAD_VERTEX_COUNT as int),
{
}

/// The index list is six entries long and every entry names one of the four
/// quad corners, whatever the view was constructed with: the geometry is a
/// constant of the library.
pub proof fn lemma_quad_indices_in_bounds()
    ensures
        spec_quad_indices().len() == QUAD_INDEX_COUNT,
        forall|i: int|
            0 <= i < spec_quad_indices().len() ==> spec_quad_indices()[i] < QUAD_VERTEX_COUNT,
{
    assert forall|i: int|
        0 <= i < spec_quad_indices().len() implies spec_quad_indices()[i]
        < QUAD_VERTEX_COUNT by {
        if i == 0 || i == 1 || i == 2 || i == 3 || i == 4 || i == 5 {
        }
    }
}

} // verus!
