//! Collision geometry extraction: the round trip and the unsupported shapes.

use glam::{Quat, Vec3};
use halfpipe::collider::{
    mesh_to_collider_shape, to_render_mesh, AttributeValues, MeshIndices, RenderMesh,
};
use halfpipe::mesh::{MeshBuffers, RingFrame, RingVertex};
use halfpipe::shapes::HalfCylinder;
use halfpipe::{Vec2Bits, Vec3Bits};

fn bits_of(v: Vec3) -> Vec3Bits {
    Vec3Bits { x: v.x.to_bits(), y: v.y.to_bits(), z: v.z.to_bits() }
}

fn vec_of(b: Vec3Bits) -> Vec3 {
    Vec3::new(f32::from_bits(b.x), f32::from_bits(b.y), f32::from_bits(b.z))
}

fn ring(position: Vec3, forward: Vec3, radius: f32, subdivisions: usize) -> RingFrame {
    let up = Vec3::Y;
    let right = up.cross(-forward).normalize_or_zero() * radius;
    let mut vertices = Vec::new();
    for i in 0..=subdivisions {
        let angle = std::f32::consts::PI * i as f32 / subdivisions as f32;
        let offset = Quat::from_axis_angle(forward, angle) * right;
        let normal = -offset.normalize_or_zero();
        vertices.push(RingVertex { position: bits_of(position + offset), normal: bits_of(normal) });
    }
    RingFrame { vertices }
}

fn straight_mesh(shape: &HalfCylinder) -> MeshBuffers {
    let start = vec_of(shape.start());
    let end = vec_of(shape.end());
    let radius = f32::from_bits(shape.radius_bits());
    let subdivisions = shape.subdivisions();
    let forward = (end - start).normalize_or_zero();
    let rings = vec![
        ring(start, forward, radius, subdivisions),
        ring(end, forward, radius, subdivisions),
    ];
    MeshBuffers::from_rings(&rings, subdivisions)
}

#[test]
fn round_trip_keeps_every_position_and_triangle() {
    let mesh = straight_mesh(&HalfCylinder::new());
    let positions = mesh.positions().clone();
    let indices = mesh.indices().clone();
    let geom = mesh_to_collider_shape(&to_render_mesh(mesh)).expect("a supported mesh");
    assert_eq!(geom.vertices, positions);
    assert_eq!(geom.triangles.len(), indices.len() / 3);
    assert_eq!(geom.triangles.len(), 20);
    for (t, tri) in geom.triangles.iter().enumerate() {
        assert_eq!(tri.a, indices[3 * t]);
        assert_eq!(tri.b, indices[3 * t + 1]);
        assert_eq!(tri.c, indices[3 * t + 2]);
    }
}

#[test]
fn missing_index_buffer_is_a_failure_not_an_empty_mesh() {
    let mesh = straight_mesh(&HalfCylinder::new());
    let mut render = to_render_mesh(mesh);
    render.indices = None;
    assert_eq!(mesh_to_collider_shape(&render), None);
}

#[test]
fn missing_positions_are_a_failure() {
    let mesh = straight_mesh(&HalfCylinder::new());
    let mut render = to_render_mesh(mesh);
    render.position = None;
    assert_eq!(mesh_to_collider_shape(&render), None);
}

#[test]
fn sixteen_bit_indices_are_unsupported() {
    let mesh = straight_mesh(&HalfCylinder::new());
    let mut render = to_render_mesh(mesh);
    render.indices = Some(MeshIndices::U16(vec![0, 1, 2]));
    assert_eq!(mesh_to_collider_shape(&render), None);
}

#[test]
fn two_component_positions_are_unsupported() {
    let mesh = straight_mesh(&HalfCylinder::new());
    let mut render = to_render_mesh(mesh);
    render.position = Some(AttributeValues::Float32x2(vec![Vec2Bits { u: 0, v: 0 }]));
    assert_eq!(mesh_to_collider_shape(&render), None);
}

#[test]
fn trailing_partial_triangle_is_truncated() {
    let positions: Vec<Vec3Bits> = (0..4)
        .map(|i| bits_of(Vec3::new(i as f32, 0.0, 0.0)))
        .collect();
    let render = RenderMesh {
        position: Some(AttributeValues::Float32x3(positions)),
        normal: None,
        uv: None,
        indices: Some(MeshIndices::U32(vec![0, 1, 2, 2, 1, 3, 0])),
    };
    let geom = mesh_to_collider_shape(&render).expect("a supported mesh");
    assert_eq!(geom.triangles.len(), 2);
    assert_eq!((geom.triangles[0].a, geom.triangles[0].b, geom.triangles[0].c), (0, 1, 2));
    assert_eq!((geom.triangles[1].a, geom.triangles[1].b, geom.triangles[1].c), (2, 1, 3));
}

#[test]
fn render_mesh_carries_all_four_buffers() {
    let mesh = straight_mesh(&HalfCylinder::new());
    let normals = mesh.normals().clone();
    let uvs = mesh.uvs().clone();
    let render = to_render_mesh(mesh);
    assert!(matches!(render.position, Some(AttributeValues::Float32x3(_))));
    match &render.normal {
        Some(AttributeValues::Float32x3(ns)) => assert_eq!(*ns, normals),
        other => panic!("unexpected normal attribute: {other:?}"),
    }
    match &render.uv {
        Some(AttributeValues::Float32x2(us)) => assert_eq!(*us, uvs),
        other => panic!("unexpected uv attribute: {other:?}"),
    }
    assert!(matches!(render.indices, Some(MeshIndices::U32(_))));
}
