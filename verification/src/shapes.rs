//! Tube shape configurations.
//!
//! Two immutable configurations share one triangulation scheme: the straight
//! half-cylinder primitive (two rings, no randomness) and the swept
//! half-cylinder path (a seeded random walk, one ring per path step). A
//! configuration is validated once, at construction, and never silently
//! clamped: an invalid parameter is a descriptive error, because clamping
//! would make seeded geometry non-reproducible across configuration changes.
//!
//! Scalars are bit patterns of 32-bit IEEE 754 numbers, like everywhere in
//! this crate; the named constants below are the default values' patterns.

use vstd::prelude::*;

use crate::mesh::MeshModel;
use crate::paths::WormPathIterator;
use crate::scalar_bits::{spec_is_pos_bits, AngleRange};
use crate::Vec3Bits;

verus! {

/// Bit pattern of 0.5.
pub const BITS_HALF: u32 = 0x3f00_0000;

/// Bit pattern of -0.5.
pub const BITS_NEG_HALF: u32 = 0xbf00_0000;

/// Bit pattern of 1.0.
pub const BITS_ONE: u32 = 0x3f80_0000;

/// Bit pattern of -1.0.
pub const BITS_NEG_ONE: u32 = 0xbf80_0000;

/// Bit pattern of the default yaw low bound, -0.9 times a quarter turn.
pub const DEFAULT_YAW_LO: u32 = 0xbfb4_f4ab;

/// Bit pattern of the default yaw high bound, 0.9 times a quarter turn.
pub const DEFAULT_YAW_HI: u32 = 0x3fb4_f4ab;

/// Bit pattern of the default pitch low bound, -0.9 times a quarter turn.
pub const DEFAULT_PITCH_LO: u32 = 0xbfb4_f4ab;

/// Bit pattern of the default pitch high bound, -0.1 times a quarter turn.
pub const DEFAULT_PITCH_HI: u32 = 0xbe20_d97c;

/// The default seed of the swept path.
pub const DEFAULT_SEED: u64 = 1234;

/// Why a configuration was rejected.
#[derive(Clone, Copy, PartialEq, Eq, Structural, Debug)]
pub enum ConfigError {
    /// The cross-section needs at least one subdivision: the per-vertex
    /// angle step divides by the subdivision count.
    ZeroSubdivisions,
    /// The tube radius must be strictly positive.
    NonPositiveRadius,
    /// The yaw angle interval is empty: its low bound does not lie strictly
    /// below its high bound.
    EmptyYawRange,
    /// The pitch angle interval is empty: its low bound does not lie
    /// strictly below its high bound.
    EmptyPitchRange,
}

impl ConfigError {
    /// The rejection, in words.
    pub open spec fn spec_message(self) -> Seq<char> {
        match self {
            ConfigError::ZeroSubdivisions => "subdivisions must be at least 1"@,
            ConfigError::NonPositiveRadius => "radius must be strictly positive"@,
            ConfigError::EmptyYawRange => "yaw range must be non-empty"@,
            ConfigError::EmptyPitchRange => "pitch range must be non-empty"@,
        }
    }

    /// The rejection, in words.
    pub fn message(&self) -> (m: &'static str)
        ensures
            m@ == self.spec_message(),
    {
        match self {
            ConfigError::ZeroSubdivisions => "subdivisions must be at least 1",
            ConfigError::NonPositiveRadius => "radius must be strictly positive",
            ConfigError::EmptyYawRange => "yaw range must be non-empty",
            ConfigError::EmptyPitchRange => "pitch range must be non-empty",
        }
    }
}

/// The straight half-cylinder primitive: a two-ring tube between two fixed
/// points, no randomness. Immutable once constructed.
#[derive(Debug)]
pub struct HalfCylinder {
    start: Vec3Bits,
    end: Vec3Bits,
    radius: u32,
    subdivisions: usize,
}

impl HalfCylinder {
    #[verifier::type_invariant]
    spec fn inv(self) -> bool {
        self.subdivisions >= 1
    }

    pub closed spec fn spec_start(self) -> Vec3Bits {
        self.start
    }

    pub closed spec fn spec_end(self) -> Vec3Bits {
        self.end
    }

    pub closed spec fn spec_radius_bits(self) -> u32 {
        self.radius
    }

    pub closed spec fn spec_subdivisions(self) -> usize {
        self.subdivisions
    }

    /// The default primitive: a half-cylinder of radius 0.5 and ten
    /// subdivisions between (0, 0, -0.5) and (0, 0, 0.5).
    pub fn new() -> (c: HalfCylinder)
        ensures
            c.spec_start() == (Vec3Bits { x: 0, y: 0, z: BITS_NEG_HALF }),
            c.spec_end() == (Vec3Bits { x: 0, y: 0, z: BITS_HALF }),
            c.spec_radius_bits() == BITS_HALF,
            c.spec_subdivisions() == 10,
    {
        HalfCylinder {
            start: Vec3Bits { x: 0, y: 0, z: BITS_NEG_HALF },
            end: Vec3Bits { x: 0, y: 0, z: BITS_HALF },
            radius: BITS_HALF,
            subdivisions: 10,
        }
    }

    /// A primitive with the caller's endpoints, radius and subdivision
    /// count. Rejected exactly when the subdivision count is zero, which
    /// the shared triangulation cannot admit.
    pub fn from_parts(start: Vec3Bits, end: Vec3Bits, radius: u32, subdivisions: usize) -> (r:
        Result<HalfCylinder, ConfigError>)
        ensures
            match r {
                Ok(c) => {
                    &&& subdivisions >= 1
                    &&& c.spec_start() == start
                    &&& c.spec_end() == end
                    &&& c.spec_radius_bits() == radius
                    &&& c.spec_subdivisions() == subdivisions
                },
                Err(e) => subdivisions == 0 && e == ConfigError::ZeroSubdivisions,
            },
    {
        if subdivisions == 0 {
            Err(ConfigError::ZeroSubdivisions)
        } else {
            Ok(HalfCylinder { start, end, radius, subdivisions })
        }
    }

    /// The fixed start point.
    pub fn start(&self) -> (v: Vec3Bits)
        ensures
            v == self.spec_start(),
    {
        self.start
    }

    /// The fixed end point.
    pub fn end(&self) -> (v: Vec3Bits)
        ensures
            v == self.spec_end(),
    {
        self.end
    }

    /// The tube radius, as a bit pattern.
    pub fn radius_bits(&self) -> (r: u32)
        ensures
            r == self.spec_radius_bits(),
    {
        self.radius
    }

    /// The cross-section subdivision count, always at least 1.
    pub fn subdivisions(&self) -> (s: usize)
        ensures
            s == self.spec_subdivisions(),
            s >= 1,
    {
        proof {
            use_type_invariant(&*self);
        }
        self.subdivisions
    }
}

impl Default for HalfCylinder {
    /// The default primitive, as `new` builds it.
    fn default() -> (c: Self)
        ensures
            c.spec_start() == (Vec3Bits { x: 0, y: 0, z: BITS_NEG_HALF }),
            c.spec_end() == (Vec3Bits { x: 0, y: 0, z: BITS_HALF }),
            c.spec_radius_bits() == BITS_HALF,
            c.spec_subdivisions() == 10,
    {
        HalfCylinder::new()
    }
}

/// What validation of the swept-path parameters yields: the checks run in
/// the written order and the first failure names the error.
pub open spec fn spec_validate_path(
    radius: u32,
    subdivisions: usize,
    yaw_range: AngleRange,
    pitch_range: AngleRange,
) -> Result<(), ConfigError> {
    if subdivisions == 0 {
        Err(ConfigError::ZeroSubdivisions)
    } else if !spec_is_pos_bits(radius) {
        Err(ConfigError::NonPositiveRadius)
    } else if !yaw_range.spec_nonempty() {
        Err(ConfigError::EmptyYawRange)
    } else if !pitch_range.spec_nonempty() {
        Err(ConfigError::EmptyPitchRange)
    } else {
        Ok(())
    }
}

/// The swept half-cylinder path configuration: start point, initial forward
/// direction, tube radius, per-segment length, segment count, cross-section
/// subdivision count, seed, and the two angle ranges of the random walk.
/// Immutable once constructed; construction enforces the invariant that the
/// angle ranges are non-empty, the subdivision count is at least 1 and the
/// radius is strictly positive.
#[derive(Debug)]
pub struct HalfCylinderPath {
    start: Vec3Bits,
    forward: Vec3Bits,
    radius: u32,
    segment_length: u32,
    n_segments: usize,
    subdivisions: usize,
    seed: u64,
    yaw_range: AngleRange,
    pitch_range: AngleRange,
}

impl HalfCylinderPath {
    #[verifier::type_invariant]
    spec fn inv(self) -> bool {
        spec_validate_path(self.radius, self.subdivisions, self.yaw_range, self.pitch_range)
            is Ok
    }

    pub closed spec fn spec_start(self) -> Vec3Bits {
        self.start
    }

    pub closed spec fn spec_forward(self) -> Vec3Bits {
        self.forward
    }

    pub closed spec fn spec_radius_bits(self) -> u32 {
        self.radius
    }

    pub closed spec fn spec_segment_length_bits(self) -> u32 {
        self.segment_length
    }

    pub closed spec fn spec_n_segments(self) -> usize {
        self.n_segments
    }

    pub closed spec fn spec_subdivisions(self) -> usize {
        self.subdivisions
    }

    pub closed spec fn spec_seed(self) -> u64 {
        self.seed
    }

    pub closed spec fn spec_yaw_range(self) -> AngleRange {
        self.yaw_range
    }

    pub closed spec fn spec_pitch_range(self) -> AngleRange {
        self.pitch_range
    }

    /// The default swept path: one hundred segments of length 1.0 from the
    /// origin along -Z, radius 0.5, ten subdivisions, seed 1234, yaw drawn
    /// from ±0.9 of a quarter turn and pitch from a downward band.
    pub fn new() -> (c: HalfCylinderPath)
        ensures
            c.spec_start() == (Vec3Bits { x: 0, y: 0, z: 0 }),
            c.spec_forward() == (Vec3Bits { x: 0, y: 0, z: BITS_NEG_ONE }),
            c.spec_radius_bits() == BITS_HALF,
            c.spec_segment_length_bits() == BITS_ONE,
            c.spec_n_segments() == 100,
            c.spec_subdivisions() == 10,
            c.spec_seed() == DEFAULT_SEED,
            c.spec_yaw_range() == (AngleRange { lo: DEFAULT_YAW_LO, hi: DEFAULT_YAW_HI }),
            c.spec_pitch_range() == (AngleRange { lo: DEFAULT_PITCH_LO, hi: DEFAULT_PITCH_HI }),
    {
        proof {
            assert(spec_validate_path(
                BITS_HALF,
                10,
                AngleRange { lo: DEFAULT_YAW_LO, hi: DEFAULT_YAW_HI },
                AngleRange { lo: DEFAULT_PITCH_LO, hi: DEFAULT_PITCH_HI },
            ) is Ok);
        }
        HalfCylinderPath {
            start: Vec3Bits { x: 0, y: 0, z: 0 },
            forward: Vec3Bits { x: 0, y: 0, z: BITS_NEG_ONE },
            radius: BITS_HALF,
            segment_length: BITS_ONE,
            n_segments: 100,
            subdivisions: 10,
            seed: DEFAULT_SEED,
            yaw_range: AngleRange { lo: DEFAULT_YAW_LO, hi: DEFAULT_YAW_HI },
            pitch_range: AngleRange { lo: DEFAULT_PITCH_LO, hi: DEFAULT_PITCH_HI },
        }
    }

    /// A swept path with the caller's parameters. Succeeds exactly when the
    /// parameters satisfy the configuration invariant; otherwise the first
    /// failed check, in the order subdivisions, radius, yaw range, pitch
    /// range, names the error. Nothing is clamped.
    pub fn from_parts(
        start: Vec3Bits,
        forward: Vec3Bits,
        radius: u32,
        segment_length: u32,
        n_segments: usize,
        subdivisions: usize,
        seed: u64,
        yaw_range: AngleRange,
        pitch_range: AngleRange,
    ) -> (r: Result<HalfCylinderPath, ConfigError>)
        ensures
            (r is Ok) == (spec_validate_path(radius, subdivisions, yaw_range, pitch_range)
                is Ok),
            match r {
                Ok(c) => {
                    &&& c.spec_start() == start
                    &&& c.spec_forward() == forward
                    &&& c.spec_radius_bits() == radius
                    &&& c.spec_segment_length_bits() == segment_length
                    &&& c.spec_n_segments() == n_segments
                    &&& c.spec_subdivisions() == subdivisions
                    &&& c.spec_seed() == seed
                    &&& c.spec_yaw_range() == yaw_range
                    &&& c.spec_pitch_range() == pitch_range
                },
                Err(e) => Err::<(), ConfigError>(e) == spec_validate_path(
                    radius,
                    subdivisions,
                    yaw_range,
                    pitch_range,
                ),
            },
    {
        if subdivisions == 0 {
            Err(ConfigError::ZeroSubdivisions)
        } else if !crate::scalar_bits::is_pos_bits(radius) {
            Err(ConfigError::NonPositiveRadius)
        } else if !yaw_range.nonempty() {
            Err(ConfigError::EmptyYawRange)
        } else if !pitch_range.nonempty() {
            Err(ConfigError::EmptyPitchRange)
        } else {
            Ok(
                HalfCylinderPath {
                    start,
                    forward,
                    radius,
                    segment_length,
                    n_segments,
                    subdivisions,
                    seed,
                    yaw_range,
                    pitch_range,
                },
            )
        }
    }

    /// The start position of the walk.
    pub fn start(&self) -> (v: Vec3Bits)
        ensures
            v == self.spec_start(),
    {
        self.start
    }

    /// The initial forward direction of the walk.
    pub fn forward(&self) -> (v: Vec3Bits)
        ensures
            v == self.spec_forward(),
    {
        self.forward
    }

    /// The tube radius, as a bit pattern; strictly positive.
    pub fn radius_bits(&self) -> (r: u32)
        ensures
            r == self.spec_radius_bits(),
            spec_is_pos_bits(r),
    {
        proof {
            use_type_invariant(&*self);
        }
        self.radius
    }

    /// The per-segment length, as a bit pattern.
    pub fn segment_length_bits(&self) -> (r: u32)
        ensures
            r == self.spec_segment_length_bits(),
    {
        self.segment_length
    }

    /// The number of path segments; zero gives a single ring and no
    /// triangles, which is degenerate but not an error.
    pub fn n_segments(&self) -> (n: usize)
        ensures
            n == self.spec_n_segments(),
    {
        self.n_segments
    }

    /// The cross-section subdivision count, always at least 1.
    pub fn subdivisions(&self) -> (s: usize)
        ensures
            s == self.spec_subdivisions(),
            s >= 1,
    {
        proof {
            use_type_invariant(&*self);
        }
        self.subdivisions
    }

    /// The seed of the random walk.
    pub fn seed(&self) -> (s: u64)
        ensures
            s == self.spec_seed(),
    {
        self.seed
    }

    /// The yaw angle range; non-empty.
    pub fn yaw_range(&self) -> (r: AngleRange)
        ensures
            r == self.spec_yaw_range(),
            r.spec_nonempty(),
    {
        proof {
            use_type_invariant(&*self);
        }
        self.yaw_range
    }

    /// The pitch angle range; non-empty.
    pub fn pitch_range(&self) -> (r: AngleRange)
        ensures
            r == self.spec_pitch_range(),
            r.spec_nonempty(),
    {
        proof {
            use_type_invariant(&*self);
        }
        self.pitch_range
    }

    /// The walk's turning-decision source: a fresh generator seeded with
    /// this configuration's seed and carrying its angle ranges.
    pub fn worm_path_iter(&self) -> (it: WormPathIterator)
        ensures
            it.spec_seed() == self.spec_seed(),
            it.spec_drawn() == 0,
            it.spec_yaw_range() == self.spec_yaw_range(),
            it.spec_pitch_range() == self.spec_pitch_range(),
    {
        proof {
            use_type_invariant(&*self);
        }
        WormPathIterator::new(self.seed, self.yaw_range, self.pitch_range)
    }
}

impl Default for HalfCylinderPath {
    /// The default swept path, as `new` builds it.
    fn default() -> (c: Self)
        ensures
            c.spec_start() == (Vec3Bits { x: 0, y: 0, z: 0 }),
            c.spec_forward() == (Vec3Bits { x: 0, y: 0, z: BITS_NEG_ONE }),
            c.spec_radius_bits() == BITS_HALF,
            c.spec_segment_length_bits() == BITS_ONE,
            c.spec_n_segments() == 100,
            c.spec_subdivisions() == 10,
            c.spec_seed() == DEFAULT_SEED,
            c.spec_yaw_range() == (AngleRange { lo: DEFAULT_YAW_LO, hi: DEFAULT_YAW_HI }),
            c.spec_pitch_range() == (AngleRange { lo: DEFAULT_PITCH_LO, hi: DEFAULT_PITCH_HI }),
    {
        HalfCylinderPath::new()
    }
}

/// Vertex and index bounds of the swept tube: a well-formed mesh assembled
/// from this configuration's `n_segments + 1` rings has exactly
/// `(subdivisions + 1) * (n_segments + 1)` vertices, and every triangle
/// index it emits is strictly below that vertex count.
pub proof fn lemma_swept_vertex_index_bounds(cfg: HalfCylinderPath, m: MeshModel)
    requires
        m.wf(),
        m.positions.len() == (cfg.spec_n_segments() + 1) * (cfg.spec_subdivisions() + 1),
    ensures
        forall|t: int|
            0 <= t < m.indices.len() ==> (#[trigger] m.indices[t]) < (cfg.spec_subdivisions()
                + 1) * (cfg.spec_n_segments() + 1),
{
    vstd::arithmetic::mul::lemma_mul_is_commutative(
        (cfg.spec_n_segments() + 1) as int,
        (cfg.spec_subdivisions() + 1) as int,
    );
}

} // verus!
