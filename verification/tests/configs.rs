//! Configuration defaults and validation.

use halfpipe::scalar_bits::AngleRange;
use halfpipe::shapes::{
    ConfigError, HalfCylinder, HalfCylinderPath, BITS_HALF, BITS_NEG_HALF, BITS_NEG_ONE, BITS_ONE,
    DEFAULT_PITCH_HI, DEFAULT_PITCH_LO, DEFAULT_SEED, DEFAULT_YAW_HI, DEFAULT_YAW_LO,
};
use halfpipe::Vec3Bits;

fn yaw() -> AngleRange {
    AngleRange { lo: DEFAULT_YAW_LO, hi: DEFAULT_YAW_HI }
}

fn pitch() -> AngleRange {
    AngleRange { lo: DEFAULT_PITCH_LO, hi: DEFAULT_PITCH_HI }
}

fn origin() -> Vec3Bits {
    Vec3Bits { x: 0, y: 0, z: 0 }
}

#[test]
fn named_constants_are_the_expected_bit_patterns() {
    assert_eq!(BITS_HALF, 0.5f32.to_bits());
    assert_eq!(BITS_NEG_HALF, (-0.5f32).to_bits());
    assert_eq!(BITS_ONE, 1.0f32.to_bits());
    assert_eq!(BITS_NEG_ONE, (-1.0f32).to_bits());
    assert_eq!(DEFAULT_YAW_LO, (-0.9 * std::f32::consts::FRAC_PI_2).to_bits());
    assert_eq!(DEFAULT_YAW_HI, (0.9 * std::f32::consts::FRAC_PI_2).to_bits());
    assert_eq!(DEFAULT_PITCH_LO, (-0.9 * std::f32::consts::FRAC_PI_2).to_bits());
    assert_eq!(DEFAULT_PITCH_HI, (-0.1 * std::f32::consts::FRAC_PI_2).to_bits());
}

#[test]
fn straight_defaults_match_the_primitive() {
    let c = HalfCylinder::new();
    assert_eq!(c.start(), Vec3Bits { x: 0, y: 0, z: (-0.5f32).to_bits() });
    assert_eq!(c.end(), Vec3Bits { x: 0, y: 0, z: 0.5f32.to_bits() });
    assert_eq!(c.radius_bits(), 0.5f32.to_bits());
    assert_eq!(c.subdivisions(), 10);
    let d = HalfCylinder::default();
    assert_eq!(d.start(), c.start());
    assert_eq!(d.end(), c.end());
    assert_eq!(d.radius_bits(), c.radius_bits());
    assert_eq!(d.subdivisions(), c.subdivisions());
}

#[test]
fn swept_defaults_match_the_documented_level() {
    let c = HalfCylinderPath::new();
    assert_eq!(c.start(), origin());
    assert_eq!(c.forward(), Vec3Bits { x: 0, y: 0, z: (-1.0f32).to_bits() });
    assert_eq!(c.radius_bits(), 0.5f32.to_bits());
    assert_eq!(c.segment_length_bits(), 1.0f32.to_bits());
    assert_eq!(c.n_segments(), 100);
    assert_eq!(c.subdivisions(), 10);
    assert_eq!(c.seed(), DEFAULT_SEED);
    assert_eq!(c.seed(), 1234);
    assert_eq!(c.yaw_range(), yaw());
    assert_eq!(c.pitch_range(), pitch());
    let d = HalfCylinderPath::default();
    assert_eq!(d.seed(), c.seed());
    assert_eq!(d.n_segments(), c.n_segments());
}

#[test]
fn zero_subdivisions_fail_construction() {
    let r = HalfCylinderPath::from_parts(
        origin(),
        Vec3Bits { x: 0, y: 0, z: BITS_NEG_ONE },
        BITS_HALF,
        BITS_ONE,
        10,
        0,
        1234,
        yaw(),
        pitch(),
    );
    assert_eq!(r.unwrap_err(), ConfigError::ZeroSubdivisions);
    let s = HalfCylinder::from_parts(origin(), origin(), BITS_HALF, 0);
    assert_eq!(s.unwrap_err(), ConfigError::ZeroSubdivisions);
}

#[test]
fn non_positive_radius_fails_construction() {
    for bad in [0.0f32, -0.0, -1.0, f32::NAN] {
        let r = HalfCylinderPath::from_parts(
            origin(),
            Vec3Bits { x: 0, y: 0, z: BITS_NEG_ONE },
            bad.to_bits(),
            BITS_ONE,
            10,
            10,
            1234,
            yaw(),
            pitch(),
        );
        assert_eq!(r.unwrap_err(), ConfigError::NonPositiveRadius, "radius {bad}");
    }
}

#[test]
fn empty_angle_ranges_fail_construction() {
    let empty_cases = [
        AngleRange { lo: DEFAULT_YAW_HI, hi: DEFAULT_YAW_HI },
        AngleRange { lo: DEFAULT_YAW_HI, hi: DEFAULT_YAW_LO },
        AngleRange { lo: f32::NAN.to_bits(), hi: DEFAULT_YAW_HI },
        AngleRange { lo: DEFAULT_YAW_LO, hi: f32::NAN.to_bits() },
    ];
    for bad in empty_cases {
        let r = HalfCylinderPath::from_parts(
            origin(),
            Vec3Bits { x: 0, y: 0, z: BITS_NEG_ONE },
            BITS_HALF,
            BITS_ONE,
            10,
            10,
            1234,
            bad,
            pitch(),
        );
        assert_eq!(r.unwrap_err(), ConfigError::EmptyYawRange);
        let r = HalfCylinderPath::from_parts(
            origin(),
            Vec3Bits { x: 0, y: 0, z: BITS_NEG_ONE },
            BITS_HALF,
            BITS_ONE,
            10,
            10,
            1234,
            yaw(),
            bad,
        );
        assert_eq!(r.unwrap_err(), ConfigError::EmptyPitchRange);
    }
}

#[test]
fn valid_parameters_round_trip_through_the_getters() {
    let start = Vec3Bits { x: 1.0f32.to_bits(), y: 2.0f32.to_bits(), z: 3.0f32.to_bits() };
    let forward = Vec3Bits { x: 0, y: 0, z: BITS_ONE };
    let c = HalfCylinderPath::from_parts(
        start,
        forward,
        75.0f32.to_bits(),
        2.0f32.to_bits(),
        7,
        3,
        42,
        yaw(),
        pitch(),
    )
    .expect("a valid configuration");
    assert_eq!(c.start(), start);
    assert_eq!(c.forward(), forward);
    assert_eq!(c.radius_bits(), 75.0f32.to_bits());
    assert_eq!(c.segment_length_bits(), 2.0f32.to_bits());
    assert_eq!(c.n_segments(), 7);
    assert_eq!(c.subdivisions(), 3);
    assert_eq!(c.seed(), 42);
    assert_eq!(c.yaw_range(), yaw());
    assert_eq!(c.pitch_range(), pitch());
    let iter = c.worm_path_iter();
    assert_eq!(iter.seed(), 42);
    assert_eq!(iter.yaw_range(), yaw());
    assert_eq!(iter.pitch_range(), pitch());
}

#[test]
fn rejections_come_with_words() {
    assert_eq!(ConfigError::ZeroSubdivisions.message(), "subdivisions must be at least 1");
    assert_eq!(ConfigError::NonPositiveRadius.message(), "radius must be strictly positive");
    assert_eq!(ConfigError::EmptyYawRange.message(), "yaw range must be non-empty");
    assert_eq!(ConfigError::EmptyPitchRange.message(), "pitch range must be non-empty");
}
