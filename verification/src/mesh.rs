//! Tube mesh buffers: ring layout and triangulation.
//!
//! A tube surface is assembled from an ordered sequence of cross-section
//! rings, each ring holding `subdivisions + 1` vertices along a half-turn
//! arc. The rings' vertex data (positions and normals, as IEEE 754 bit
//! patterns) is computed by the caller's numeric kernel; this module owns
//! everything that can go wrong in the bookkeeping: flattening the rings
//! into parallel vertex buffers in order, zero texture coordinates, and the
//! triangle index buffer that stitches consecutive rings into quads.
//!
//! One winding convention is used for every tube, straight or swept: for
//! ring pair `(k, k + 1)` and column `j`, with `svc = subdivisions + 1` and
//! `off = k * svc + j`, the two triangles are `(off + 1, off, off + svc)`
//! and `(off + svc, off + svc + 1, off + 1)`. Walking the rings in path
//! order, with the lateral vector taken as `up × (-forward)`, this winding
//! agrees with the stored per-vertex normals.

use vstd::arithmetic::div_mod::{lemma_mod_division_less_than_divisor, lemma_multiply_divide_lt};
use vstd::arithmetic::mul::{lemma_mul_inequality, lemma_mul_is_distributive_add_other_way};
use vstd::prelude::*;

use crate::{spec_zero_vec2, Vec2Bits, Vec3Bits};

verus! {

/// One vertex of a cross-section ring: its position and the unit normal
/// stored with it (or the zero vector where the ring arc degenerated).
#[derive(Clone, Copy, PartialEq, Eq, Structural, Debug)]
pub struct RingVertex {
    pub position: Vec3Bits,
    pub normal: Vec3Bits,
}

/// One cross-section ring of the tube: the `subdivisions + 1` vertices of
/// its half-turn arc, in sweep order from angle `0` to angle `π`.
#[derive(Debug)]
pub struct RingFrame {
    pub vertices: Vec<RingVertex>,
}

/// All ring vertices of a tube, flattened in ring order.
pub open spec fn spec_flat_vertices(rings: Seq<RingFrame>) -> Seq<RingVertex>
    decreases rings.len(),
{
    if rings.len() == 0 {
        Seq::empty()
    } else {
        spec_flat_vertices(rings.drop_last()) + rings.last().vertices@
    }
}

/// Flattening rings of a common width `w` yields `rings.len() * w` vertices.
pub proof fn lemma_flat_vertices_len(rings: Seq<RingFrame>, w: nat)
    requires
        forall|i: int| 0 <= i < rings.len() ==> (#[trigger] rings[i]).vertices@.len() == w,
    ensures
        spec_flat_vertices(rings).len() == rings.len() * w,
    decreases rings.len(),
{
    if rings.len() == 0 {
    } else {
        lemma_flat_vertices_len(rings.drop_last(), w);
        assert((rings.len() - 1) * w + w == rings.len() * w) by (nonlinear_arith);
    }
}

/// Where each ring vertex lands in the flattened buffer: with rings of a
/// common width `w`, vertex `i` of ring `r` is flat vertex `r * w + i`.
pub proof fn lemma_flat_vertices_index(rings: Seq<RingFrame>, w: nat, r: int, i: int)
    requires
        forall|k: int| 0 <= k < rings.len() ==> (#[trigger] rings[k]).vertices@.len() == w,
        0 <= r < rings.len(),
        0 <= i < w,
    ensures
        0 <= r * w + i < spec_flat_vertices(rings).len(),
        spec_flat_vertices(rings)[r * w + i] == rings[r].vertices@[i],
    decreases rings.len(),
{
    lemma_flat_vertices_len(rings, w);
    vstd::arithmetic::mul::lemma_mul_nonnegative(r, w as int);
    lemma_mul_is_distributive_add_other_way(w as int, r, 1);
    lemma_mul_inequality(r + 1, rings.len() as int, w as int);
    let prefix = rings.drop_last();
    assert(forall|k: int| 0 <= k < prefix.len() ==> (#[trigger] prefix[k]).vertices@.len() == w);
    lemma_flat_vertices_len(prefix, w);
    if r == rings.len() - 1 {
        assert(r * w + i - prefix.len() * w == i);
    } else {
        lemma_flat_vertices_index(prefix, w, r, i);
        lemma_mul_inequality(r + 1, prefix.len() as int, w as int);
    }
}

/// The six indices of the two triangles that stitch quad column `j` between
/// ring `k` and ring `k + 1`, with `s` subdivisions per ring.
pub open spec fn spec_quad_indices(s: nat, k: nat, j: nat) -> Seq<u32> {
    let svc = s + 1;
    let off = k * svc + j;
    seq![
        (off + 1) as u32,
        off as u32,
        (off + svc) as u32,
        (off + svc) as u32,
        (off + svc + 1) as u32,
        (off + 1) as u32,
    ]
}

/// The indices of the first `q` quads of a tube with `s` subdivisions, in
/// row-major order: quad `q` sits between rings `q / s` and `q / s + 1` at
/// column `q % s`.
pub open spec fn spec_quads_prefix(s: nat, q: nat) -> Seq<u32>
    decreases q,
{
    if q == 0 {
        Seq::empty()
    } else {
        let p = (q - 1) as nat;
        spec_quads_prefix(s, p) + spec_quad_indices(s, p / s, p % s)
    }
}

/// The full triangle index buffer of a tube with `n_rings` rings and `s`
/// subdivisions: `(n_rings - 1) * s` quads, two triangles each.
pub open spec fn spec_tube_indices(n_rings: nat, s: nat) -> Seq<u32> {
    if n_rings == 0 {
        Seq::empty()
    } else {
        spec_quads_prefix(s, (n_rings - 1) as nat * s)
    }
}

/// Builds the triangle index buffer that stitches `n_rings` consecutive
/// rings of `subdivisions + 1` vertices each: `(n_rings - 1) * subdivisions`
/// quads, each split into two triangles under the one winding convention of
/// this crate. Every emitted index is below the tube's vertex count.
pub fn tube_indices(n_rings: usize, subdivisions: usize) -> (idx: Vec<u32>)
    requires
        1 <= n_rings,
        1 <= subdivisions,
        n_rings * (subdivisions + 1) <= u32::MAX,
        6 * ((n_rings - 1) * subdivisions) <= usize::MAX,
    ensures
        idx@ == spec_tube_indices(n_rings as nat, subdivisions as nat),
        idx@.len() == 6 * ((n_rings - 1) * subdivisions),
        forall|t: int| 0 <= t < idx@.len() ==> (#[trigger] idx@[t]) < n_rings * (subdivisions + 1),
{
    proof {
        assert((n_rings - 1) * subdivisions <= 6 * ((n_rings - 1) * subdivisions))
            by (nonlinear_arith)
        requires
            n_rings >= 1,
            subdivisions >= 1,
        ;
        assert(subdivisions + 1 <= n_rings * (subdivisions + 1)) by (nonlinear_arith)
            requires
                n_rings >= 1,
        ;
    }
    let n_quads: usize = (n_rings - 1) * subdivisions;
    let svc: usize = subdivisions + 1;
    let mut idx: Vec<u32> = Vec::new();
    let mut q: usize = 0;
    while q < n_quads
        invariant
            q <= n_quads,
            n_quads == (n_rings - 1) * subdivisions,
            svc == subdivisions + 1,
            1 <= subdivisions,
            1 <= n_rings,
            n_rings * (subdivisions + 1) <= u32::MAX,
            idx@ == spec_quads_prefix(subdivisions as nat, q as nat),
            idx@.len() == 6 * q,
            forall|t: int|
                0 <= t < idx@.len() ==> (#[trigger] idx@[t]) < n_rings * (subdivisions + 1),
        decreases n_quads - q,
    {
        let k: usize = q / subdivisions;
        let j: usize = q % subdivisions;
        proof {
            vstd::arithmetic::mul::lemma_mul_is_commutative(subdivisions as int, (n_rings - 1) as int);
            lemma_multiply_divide_lt(q as int, subdivisions as int, (n_rings - 1) as int);
            lemma_mod_division_less_than_divisor(q as int, subdivisions as int);
            assert(k <= n_rings - 2);
            assert(j <= subdivisions - 1);
            lemma_mul_inequality((k + 2) as int, n_rings as int, svc as int);
            lemma_mul_is_distributive_add_other_way(svc as int, k as int, 2);
            assert(k * svc + j + svc + 1 < n_rings * svc);
        }
        let off: usize = k * svc + j;
        idx.push((off + 1) as u32);
        idx.push(off as u32);
        idx.push((off + svc) as u32);
        idx.push((off + svc) as u32);
        idx.push((off + svc + 1) as u32);
        idx.push((off + 1) as u32);
        q = q + 1;
        proof {
            assert(idx@ =~= spec_quads_prefix(subdivisions as nat, q as nat));
        }
    }
    idx
}

/// A triangle: three vertex indices, in winding order.
#[derive(Clone, Copy, PartialEq, Eq, Structural, Debug)]
pub struct Triangle {
    pub a: u32,
    pub b: u32,
    pub c: u32,
}

/// The whole triangles of a flat index buffer, in order: triangle `t` is
/// the index triple at positions `3t`, `3t + 1` and `3t + 2`. A trailing
/// partial triple belongs to no triangle.
pub open spec fn spec_triangles_of_indices(indices: Seq<u32>) -> Seq<Triangle> {
    Seq::new(
        indices.len() / 3,
        |t: int| Triangle { a: indices[3 * t], b: indices[3 * t + 1], c: indices[3 * t + 2] },
    )
}

/// The ghost shape of finished mesh buffers: three parallel per-vertex
/// attribute sequences and the flat triangle index sequence.
pub struct MeshModel {
    pub positions: Seq<Vec3Bits>,
    pub normals: Seq<Vec3Bits>,
    pub uvs: Seq<Vec2Bits>,
    pub indices: Seq<u32>,
}

impl MeshModel {
    /// Well-formed mesh buffers: the attribute arrays are parallel, the
    /// index buffer holds whole triangles, and every index refers to a
    /// vertex that exists.
    pub open spec fn wf(self) -> bool {
        &&& self.normals.len() == self.positions.len()
        &&& self.uvs.len() == self.positions.len()
        &&& self.indices.len() % 3 == 0
        &&& forall|t: int|
            0 <= t < self.indices.len() ==> (#[trigger] self.indices[t]) < self.positions.len()
    }
}

/// A finished triangle mesh: parallel position / normal / texture-coordinate
/// buffers and a flat `u32` triangle index buffer. The buffers are built in
/// one piece by `from_rings` and are read-only afterwards; no partial
/// mutation is exposed.
pub struct MeshBuffers {
    positions: Vec<Vec3Bits>,
    normals: Vec<Vec3Bits>,
    uvs: Vec<Vec2Bits>,
    indices: Vec<u32>,
}

impl View for MeshBuffers {
    type V = MeshModel;

    closed spec fn view(&self) -> MeshModel {
        MeshModel {
            positions: self.positions@,
            normals: self.normals@,
            uvs: self.uvs@,
            indices: self.indices@,
        }
    }
}

impl MeshBuffers {
    /// Assembles the mesh of a tube from its rings, in path order. The
    /// vertex buffers are the rings flattened one after another; every
    /// texture coordinate is zero; the index buffer is the one winding
    /// convention of this crate; and the result is well-formed: exactly
    /// `rings.len() * (subdivisions + 1)` vertices, every index below that
    /// count.
    pub fn from_rings(rings: &Vec<RingFrame>, subdivisions: usize) -> (mesh: MeshBuffers)
        requires
            1 <= rings@.len(),
            1 <= subdivisions,
            forall|i: int|
                0 <= i < rings@.len() ==> (#[trigger] rings@[i]).vertices@.len() == subdivisions
                    + 1,
            rings@.len() * (subdivisions + 1) <= u32::MAX,
            6 * ((rings@.len() - 1) * subdivisions) <= usize::MAX,
        ensures
            mesh@.positions == spec_flat_vertices(rings@).map_values(
                |v: RingVertex| v.position,
            ),
            mesh@.normals == spec_flat_vertices(rings@).map_values(|v: RingVertex| v.normal),
            mesh@.uvs == Seq::new(mesh@.positions.len(), |i: int| spec_zero_vec2()),
            mesh@.indices == spec_tube_indices(rings@.len() as nat, subdivisions as nat),
            mesh@.positions.len() == rings@.len() * (subdivisions + 1),
            forall|r: int, i: int|
                0 <= r < rings@.len() && 0 <= i < subdivisions + 1 ==> {
                    &&& mesh@.positions[r * (subdivisions + 1) + i] == (
                    #[trigger] rings@[r].vertices@[i]).position
                    &&& mesh@.normals[r * (subdivisions + 1) + i] == rings@[r].vertices@[i].normal
                },
            mesh@.indices.len() == 6 * ((rings@.len() - 1) * subdivisions),
            mesh@.wf(),
    {
        let n_rings: usize = rings.len();
        let mut positions: Vec<Vec3Bits> = Vec::new();
        let mut normals: Vec<Vec3Bits> = Vec::new();
        let mut uvs: Vec<Vec2Bits> = Vec::new();
        let mut r: usize = 0;
        while r < n_rings
            invariant
                r <= n_rings,
                n_rings == rings@.len(),
                forall|i: int|
                    0 <= i < rings@.len() ==> (#[trigger] rings@[i]).vertices@.len()
                        == subdivisions + 1,
                rings@.len() * (subdivisions + 1) <= u32::MAX,
                positions@ == spec_flat_vertices(rings@.take(r as int)).map_values(
                    |v: RingVertex| v.position,
                ),
                normals@ == spec_flat_vertices(rings@.take(r as int)).map_values(
                    |v: RingVertex| v.normal,
                ),
                uvs@ == Seq::new(positions@.len(), |i: int| spec_zero_vec2()),
                positions@.len() == r * (subdivisions + 1),
            decreases n_rings - r,
        {
            proof {
                lemma_flat_vertices_len(rings@.take(r as int), (subdivisions + 1) as nat);
                lemma_mul_inequality((r + 1) as int, n_rings as int, (subdivisions + 1) as int);
                lemma_mul_is_distributive_add_other_way((subdivisions + 1) as int, r as int, 1);
            }
            let ring = &rings[r];
            let ring_len: usize = ring.vertices.len();
            let mut i: usize = 0;
            while i < ring_len
                invariant
                    i <= ring_len,
                    ring_len == ring.vertices@.len(),
                    positions@ == spec_flat_vertices(rings@.take(r as int)).map_values(
                        |v: RingVertex| v.position,
                    ) + ring.vertices@.take(i as int).map_values(|v: RingVertex| v.position),
                    normals@ == spec_flat_vertices(rings@.take(r as int)).map_values(
                        |v: RingVertex| v.normal,
                    ) + ring.vertices@.take(i as int).map_values(|v: RingVertex| v.normal),
                    uvs@ == Seq::new(positions@.len(), |i: int| spec_zero_vec2()),
                decreases ring_len - i,
            {
                let vert = ring.vertices[i];
                positions.push(vert.position);
                normals.push(vert.normal);
                uvs.push(Vec2Bits { u: 0, v: 0 });
                i = i + 1;
                proof {
                    assert(ring.vertices@.take(i as int) =~= ring.vertices@.take(
                        i - 1 as int,
                    ).push(vert));
                    assert(positions@ =~= spec_flat_vertices(rings@.take(r as int)).map_values(
                        |v: RingVertex| v.position,
                    ) + ring.vertices@.take(i as int).map_values(|v: RingVertex| v.position));
                    assert(normals@ =~= spec_flat_vertices(rings@.take(r as int)).map_values(
                        |v: RingVertex| v.normal,
                    ) + ring.vertices@.take(i as int).map_values(|v: RingVertex| v.normal));
                    assert(uvs@ =~= Seq::new(positions@.len(), |i: int| spec_zero_vec2()));
                }
            }
            r = r + 1;
            proof {
                assert(rings@.take(r as int).drop_last() =~= rings@.take(r - 1 as int));
                assert(ring.vertices@.take(ring_len as int) =~= ring.vertices@);
                assert(positions@ =~= spec_flat_vertices(rings@.take(r as int)).map_values(
                    |v: RingVertex| v.position,
                ));
                assert(normals@ =~= spec_flat_vertices(rings@.take(r as int)).map_values(
                    |v: RingVertex| v.normal,
                ));
            }
        }
        proof {
            assert(rings@.take(n_rings as int) =~= rings@);
        }
        let indices = tube_indices(n_rings, subdivisions);
        proof {
            assert(indices@.len() % 3 == 0) by {
                assert(6 * (((n_rings - 1) as int) * subdivisions as int) % 3 == 0)
                    by (nonlinear_arith);
            }
            assert forall|r: int, i: int|
                0 <= r < rings@.len() && 0 <= i < subdivisions + 1 implies {
                &&& positions@[r * (subdivisions + 1) + i] == (
                #[trigger] rings@[r].vertices@[i]).position
                &&& normals@[r * (subdivisions + 1) + i] == rings@[r].vertices@[i].normal
            } by {
                lemma_flat_vertices_index(rings@, (subdivisions + 1) as nat, r, i);
            }
        }
        MeshBuffers { positions, normals, uvs, indices }
    }

    /// Consumes the mesh and hands its four buffers to the caller, in the
    /// order positions, normals, texture coordinates, indices.
    pub fn into_parts(self) -> (parts: (Vec<Vec3Bits>, Vec<Vec3Bits>, Vec<Vec2Bits>, Vec<u32>))
        ensures
            parts.0@ == self@.positions,
            parts.1@ == self@.normals,
            parts.2@ == self@.uvs,
            parts.3@ == self@.indices,
    {
        (self.positions, self.normals, self.uvs, self.indices)
    }

    /// The number of vertices in the mesh.
    pub fn vertex_count(&self) -> (n: usize)
        ensures
            n == self@.positions.len(),
    {
        self.positions.len()
    }

    /// The per-vertex positions.
    pub fn positions(&self) -> (r: &Vec<Vec3Bits>)
        ensures
            r@ == self@.positions,
    {
        &self.positions
    }

    /// The per-vertex normals.
    pub fn normals(&self) -> (r: &Vec<Vec3Bits>)
        ensures
            r@ == self@.normals,
    {
        &self.normals
    }

    /// The per-vertex texture coordinates.
    pub fn uvs(&self) -> (r: &Vec<Vec2Bits>)
        ensures
            r@ == self@.uvs,
    {
        &self.uvs
    }

    /// The flat triangle index buffer.
    pub fn indices(&self) -> (r: &Vec<u32>)
        ensures
            r@ == self@.indices,
    {
        &self.indices
    }
}

} // verus!
