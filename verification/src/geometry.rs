//! The fixed quad mesh: vertex data, index data, and buffer sizing.
//!
//! Coordinates are held in integer fixed point so that the scaling the demo
//! performs is exact. The unscaled quad is stated in *milli* units (a value
//! `n` stands for the real coordinate `n / 1000`), the shrink factor likewise
//! (`50` stands for `0.05`), and the product of the two is a coordinate in
//! *micro* units (`n / 1_000_000`). Scaling is therefore a plain integer
//! multiplication, and every value here is the exact image of the real
//! number it stands for.

use vstd::prelude::*;

verus! {

/// A coordinate of `n` milli units stands for the real value `n / 1000`.
pub const MILLI_DENOM: i32 = 1000;

/// A coordinate of `n` micro units stands for the real value `n / 1000000`.
pub const MICRO_DENOM: i32 = 1000000;

/// Half-extent of the unscaled quad, in milli units: `0.5`.
pub const BASE_HALF_EXTENT_MILLI: i32 = 500;

/// The uniform shrink factor applied to every coordinate, in milli units:
/// `0.05`.
pub const MESH_SCALE_MILLI: i32 = 50;

/// Number of vertices in the quad.
pub const VERTEX_COUNT: usize = 4;

/// Components per vertex (x, y, z).
pub const COMPONENTS_PER_VERTEX: usize = 3;

/// Number of indices describing the two triangles.
pub const INDEX_COUNT: usize = 6;

/// Size in bytes of one vertex component as uploaded to the GPU
/// (a 32-bit floating-point value).
pub const COMPONENT_BYTES: usize = 4;

/// Size in bytes of one index as uploaded to the GPU (a 32-bit unsigned
/// integer).
pub const INDEX_BYTES: usize = 4;

/// The unscaled quad, corner by corner: top right, bottom right, bottom
/// left, top left, each as (x, y, z) in milli units.
pub open spec fn base_quad_seq() -> Seq<i32> {
    seq![
        500i32, 500i32, 0i32,
        500i32, -500i32, 0i32,
        -500i32, -500i32, 0i32,
        -500i32, 500i32, 0i32,
    ]
}

/// The scaled quad in micro units: the four corners of a square of
/// half-extent `0.5 * 0.05 = 0.025`, in the same corner order.
pub open spec fn scaled_quad_seq() -> Seq<i32> {
    seq![
        25000i32, 25000i32, 0i32,
        25000i32, -25000i32, 0i32,
        -25000i32, -25000i32, 0i32,
        -25000i32, 25000i32, 0i32,
    ]
}

/// The six indices describing the two counter-clockwise triangles that
/// cover the quad.
pub open spec fn quad_index_seq() -> Seq<u32> {
    seq![0u32, 1, 3, 1, 2, 3]
}

/// Every coordinate of the scaled quad is the corresponding base coordinate
/// times the shrink factor.
pub proof fn lemma_scaled_quad_is_base_scaled()
    ensures
        scaled_quad_seq().len() == base_quad_seq().len(),
        forall|j: int|
            0 <= j < base_quad_seq().len() ==> scaled_quad_seq()[j] == base_quad_seq()[j]
                * MESH_SCALE_MILLI,
{
}

/// The unscaled quad as vertex data, ready to be shrunk.
pub fn base_quad_vertices() -> (v: Vec<i32>)
    ensures
        v@ == base_quad_seq(),
{
    let mut v: Vec<i32> = Vec::new();
    v.push(500);
    v.push(500);
    v.push(0);
    v.push(500);
    v.push(-500);
    v.push(0);
    v.push(-500);
    v.push(-500);
    v.push(0);
    v.push(-500);
    v.push(500);
    v.push(0);
    proof {
        assert(v@ =~= base_quad_seq());
    }
    v
}

/// Multiplies a milli-unit coordinate by a milli-unit factor, yielding the
/// exact product in micro units.
fn scale_milli_to_micro(c: i32, s: i32) -> (r: i32)
    requires
        -1000 <= c <= 1000,
        0 <= s <= 1000,
    ensures
        r == c * s,
{
    proof {
        assert(-1000000 <= c * s <= 1000000) by (nonlinear_arith)
            requires
                -1000 <= c <= 1000,
                0 <= s <= 1000,
        ;
    }
    c * s
}

/// The vertex buffer contents: the base quad with every coordinate shrunk
/// by the fixed factor, in micro units.
pub fn quad_vertices() -> (v: Vec<i32>)
    ensures
        v@ == scaled_quad_seq(),
{
    let mut v = base_quad_vertices();
    let n = v.len();
    let mut i: usize = 0;
    while i < n
        invariant
            n == 12,
            v@.len() == 12,
            forall|j: int| 0 <= j < i ==> v@[j] == base_quad_seq()[j] * MESH_SCALE_MILLI,
            forall|j: int| i <= j < 12 ==> v@[j] == base_quad_seq()[j],
        decreases n - i,
    {
        let c = v[i];
        let scaled = scale_milli_to_micro(c, MESH_SCALE_MILLI);
        v.set(i, scaled);
        i += 1;
    }
    proof {
        lemma_scaled_quad_is_base_scaled();
        assert(v@ =~= scaled_quad_seq());
    }
    v
}

/// The index buffer contents: two triangles over the four corners.
pub fn quad_indices() -> (v: Vec<u32>)
    ensures
        v@ == quad_index_seq(),
{
    let mut v: Vec<u32> = Vec::new();
    v.push(0);
    v.push(1);
    v.push(3);
    v.push(1);
    v.push(2);
    v.push(3);
    proof {
        assert(v@ =~= quad_index_seq());
    }
    v
}

/// Size in bytes of a GPU buffer holding `elem_count` elements of
/// `bytes_per_elem` bytes each.
pub fn buffer_size_bytes(elem_count: usize, bytes_per_elem: usize) -> (r: usize)
    requires
        elem_count * bytes_per_elem <= usize::MAX,
    ensures
        r == elem_count * bytes_per_elem,
{
    elem_count * bytes_per_elem
}

/// Size in bytes of the vertex buffer: 12 components of 4 bytes.
pub fn vertex_buffer_size_bytes() -> (r: usize)
    ensures
        r == VERTEX_COUNT * COMPONENTS_PER_VERTEX * COMPONENT_BYTES,
{
    buffer_size_bytes(VERTEX_COUNT * COMPONENTS_PER_VERTEX, COMPONENT_BYTES)
}

/// Size in bytes of the index buffer: 6 indices of 4 bytes.
pub fn index_buffer_size_bytes() -> (r: usize)
    ensures
        r == INDEX_COUNT * INDEX_BYTES,
{
    buffer_size_bytes(INDEX_COUNT, INDEX_BYTES)
}

/// How buffer bytes map onto the one shader input: attribute 0, three
/// consecutive floating-point components per vertex, tightly packed, no
/// offset.
pub struct AttributeLayout {
    pub location: u32,
    pub components: u32,
    pub stride_bytes: u32,
    pub offset_bytes: u32,
}

/// The layout of the quad's vertex attribute.
pub fn attribute_layout() -> (a: AttributeLayout)
    ensures
        a.location == 0,
        a.components == COMPONENTS_PER_VERTEX as u32,
        a.stride_bytes == (COMPONENTS_PER_VERTEX * COMPONENT_BYTES) as u32,
        a.offset_bytes == 0,
{
    AttributeLayout { location: 0, components: 3, stride_bytes: 12, offset_bytes: 0 }
}

} // verus!
