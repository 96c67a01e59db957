//! Procedural half-pipe track geometry.
//!
//! The crate builds a triangulated half-cylindrical tube that is swept along
//! a seeded random walk, and repackages the finished triangle mesh as exact
//! collision geometry for a physics engine. Every scalar is carried as the
//! raw bit pattern of a 32-bit IEEE 754 number, so the bookkeeping that this
//! crate owns — seeded draws, ring layout, triangle indices, attribute
//! copying — is verified exactly, while the numeric kernel that realizes the
//! bit patterns (rotations, cross products, normalization) stays with the
//! caller.

pub mod collider;
pub mod mesh;
pub mod paths;
pub mod scalar_bits;
pub mod shapes;

use vstd::prelude::*;

verus! {

/// A point or direction: the bit patterns of three 32-bit IEEE 754
/// components.
#[derive(Clone, Copy, PartialEq, Eq, Structural, Debug)]
pub struct Vec3Bits {
    pub x: u32,
    pub y: u32,
    pub z: u32,
}

/// A texture coordinate: the bit patterns of two 32-bit IEEE 754 components.
#[derive(Clone, Copy, PartialEq, Eq, Structural, Debug)]
pub struct Vec2Bits {
    pub u: u32,
    pub v: u32,
}

/// The all-zero texture coordinate, the placeholder stored for every vertex.
pub open spec fn spec_zero_vec2() -> Vec2Bits {
    Vec2Bits { u: 0, v: 0 }
}

} // verus!
