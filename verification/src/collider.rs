//! Collision geometry extraction.
//!
//! A physics engine wants the finished surface as a plain vertex list and a
//! list of index triples — the identical geometry, with no simplification,
//! no hull approximation, no deduplication and no reordering, so that
//! contact against the collider feels exactly like the rendered surface.
//!
//! The source of the extraction is a `RenderMesh`, the shape a rendering
//! engine stores a mesh in: optional attribute buffers and an optional index
//! buffer, each with a runtime-tagged layout. Extraction succeeds exactly
//! when the position attribute is present with three 32-bit components per
//! vertex and the indices are present as a flat 32-bit triangle list; any
//! other shape yields an explicit absence, never partial geometry. A
//! trailing partial triangle (an index count not divisible by three) is
//! dropped by the `len / 3` truncation — a deliberate, tested choice kept
//! from the integer division in the triangle-list layout itself.

use vstd::prelude::*;

use crate::mesh::{spec_triangles_of_indices, MeshBuffers, Triangle};
use crate::{Vec2Bits, Vec3Bits};

verus! {

/// One per-vertex attribute buffer, tagged with its component layout.
#[derive(PartialEq, Debug)]
pub enum AttributeValues {
    /// Three 32-bit IEEE 754 components per vertex (positions, normals).
    Float32x3(Vec<Vec3Bits>),
    /// Two 32-bit IEEE 754 components per vertex (texture coordinates).
    Float32x2(Vec<Vec2Bits>),
}

/// A mesh index buffer, tagged with its index width.
#[derive(PartialEq, Debug)]
pub enum MeshIndices {
    U16(Vec<u16>),
    U32(Vec<u32>),
}

/// A triangle mesh as a rendering engine stores it: every attribute is
/// optional, and each present buffer carries its own layout tag.
#[derive(PartialEq, Debug)]
pub struct RenderMesh {
    pub position: Option<AttributeValues>,
    pub normal: Option<AttributeValues>,
    pub uv: Option<AttributeValues>,
    pub indices: Option<MeshIndices>,
}

/// Exact collision geometry: the vertex list and the triangle list a
/// physics collider is built from. Owned independently of the mesh it was
/// derived from.
#[derive(PartialEq, Debug)]
pub struct ColliderGeometry {
    pub vertices: Vec<Vec3Bits>,
    pub triangles: Vec<Triangle>,
}

/// What collision extraction yields on a render mesh: the position buffer
/// and the whole triangles of the index buffer when both have the supported
/// shape, and nothing otherwise.
pub open spec fn spec_extract(mesh: RenderMesh) -> Option<(Seq<Vec3Bits>, Seq<Triangle>)> {
    match (mesh.position, mesh.indices) {
        (Some(AttributeValues::Float32x3(ps)), Some(MeshIndices::U32(is))) => Some(
            (ps@, spec_triangles_of_indices(is@)),
        ),
        _ => None,
    }
}

/// Reinterprets a render mesh as collision geometry: an exact copy of the
/// vertex positions and of the triangle topology. Returns the geometry
/// exactly when the mesh holds positions as three 32-bit components and a
/// flat 32-bit triangle index list, and an explicit absence otherwise.
pub fn mesh_to_collider_shape(mesh: &RenderMesh) -> (r: Option<ColliderGeometry>)
    ensures
        match r {
            Some(geom) => spec_extract(*mesh) == Some((geom.vertices@, geom.triangles@)),
            None => spec_extract(*mesh) is None,
        },
{
    let vertices: Vec<Vec3Bits> = match &mesh.position {
        Some(AttributeValues::Float32x3(ps)) => {
            let mut out: Vec<Vec3Bits> = Vec::new();
            let n: usize = ps.len();
            let mut i: usize = 0;
            while i < n
                invariant
                    i <= n,
                    n == ps@.len(),
                    out@ == ps@.take(i as int),
                decreases n - i,
            {
                out.push(ps[i]);
                i = i + 1;
                proof {
                    assert(out@ =~= ps@.take(i as int));
                }
            }
            proof {
                assert(ps@.take(n as int) =~= ps@);
            }
            out
        },
        _ => {
            return None;
        },
    };
    let triangles: Vec<Triangle> = match &mesh.indices {
        Some(MeshIndices::U32(is)) => {
            let mut out: Vec<Triangle> = Vec::new();
            let n_idx: usize = is.len();
            let n_triangles: usize = n_idx / 3;
            let mut t: usize = 0;
            while t < n_triangles
                invariant
                    t <= n_triangles,
                    n_idx == is@.len(),
                    n_triangles == is@.len() / 3,
                    out@ == spec_triangles_of_indices(is@).take(t as int),
                decreases n_triangles - t,
            {
                proof {
                    vstd::arithmetic::div_mod::lemma_fundamental_div_mod(is@.len() as int, 3);
                    assert(3 * t + 2 < is@.len());
                }
                let tri = Triangle { a: is[3 * t], b: is[3 * t + 1], c: is[3 * t + 2] };
                out.push(tri);
                t = t + 1;
                proof {
                    assert(out@ =~= spec_triangles_of_indices(is@).take(t as int));
                }
            }
            proof {
                assert(spec_triangles_of_indices(is@).take(n_triangles as int)
                    =~= spec_triangles_of_indices(is@));
            }
            out
        },
        _ => {
            return None;
        },
    };
    Some(ColliderGeometry { vertices, triangles })
}

/// Repackages finished mesh buffers as the render-engine shape: positions
/// and normals as three-component attributes, texture coordinates as a
/// two-component attribute, and the index buffer as a flat 32-bit triangle
/// list. Nothing is dropped or reordered.
pub fn to_render_mesh(mesh: MeshBuffers) -> (r: RenderMesh)
    ensures
        spec_extract(r) == Some((mesh@.positions, spec_triangles_of_indices(mesh@.indices))),
        (r.normal matches Some(AttributeValues::Float32x3(ns)) && ns@ == mesh@.normals),
        (r.uv matches Some(AttributeValues::Float32x2(uvs)) && uvs@ == mesh@.uvs),
{
    let (positions, normals, uvs, indices) = mesh.into_parts();
    RenderMesh {
        position: Some(AttributeValues::Float32x3(positions)),
        normal: Some(AttributeValues::Float32x3(normals)),
        uv: Some(AttributeValues::Float32x2(uvs)),
        indices: Some(MeshIndices::U32(indices)),
    }
}

/// Round trip from finished mesh buffers to collision geometry: on the
/// render mesh of any mesh buffers, extraction succeeds, yields exactly
/// `indices.len() / 3` triangles (a trailing partial triangle truncated),
/// and refers to the identical position values, in order, with no
/// deduplication — the collider sees the same surface as the renderer.
pub proof fn lemma_collider_round_trip(
    positions: Seq<Vec3Bits>,
    indices: Seq<u32>,
    r: RenderMesh,
    geom_vertices: Seq<Vec3Bits>,
    geom_triangles: Seq<Triangle>,
)
    requires
        spec_extract(r) == Some((positions, spec_triangles_of_indices(indices))),
        spec_extract(r) == Some((geom_vertices, geom_triangles)),
    ensures
        geom_vertices == positions,
        geom_triangles.len() == indices.len() / 3,
        forall|t: int|
            0 <= t < geom_triangles.len() ==> #[trigger] geom_triangles[t] == (Triangle {
                a: indices[3 * t],
                b: indices[3 * t + 1],
                c: indices[3 * t + 2],
            }),
{
}

} // verus!
