//! The bit-level scalar order against the real IEEE 754 comparisons.

use halfpipe::scalar_bits::{is_pos_bits, lt_bits, AngleRange};

const SAMPLES: [u32; 24] = [
    0x0000_0000, // 0.0
    0x8000_0000, // -0.0
    0x0000_0001, // smallest positive subnormal
    0x8000_0001, // smallest negative subnormal
    0x007f_ffff, // largest subnormal
    0x0080_0000, // smallest positive normal
    0x3f00_0000, // 0.5
    0xbf00_0000, // -0.5
    0x3f80_0000, // 1.0
    0xbf80_0000, // -1.0
    0x4096_0000, // 4.6875
    0x4296_0000, // 75.0
    0x7f7f_ffff, // largest finite
    0xff7f_ffff, // most negative finite
    0x7f80_0000, // +infinity
    0xff80_0000, // -infinity
    0x7f80_0001, // signalling NaN
    0x7fc0_0000, // quiet NaN
    0xffc0_0000, // negative quiet NaN
    0x3fb4_f4ab, // 0.9 of a quarter turn
    0xbfb4_f4ab, // -0.9 of a quarter turn
    0xbe20_d97c, // -0.1 of a quarter turn
    0x0000_0002,
    0x8000_0002,
];

#[test]
fn lt_bits_matches_ieee_less_than() {
    for &a in SAMPLES.iter() {
        for &b in SAMPLES.iter() {
            let fa = f32::from_bits(a);
            let fb = f32::from_bits(b);
            assert_eq!(
                lt_bits(a, b),
                fa < fb,
                "lt_bits disagreed on {a:#010x} < {b:#010x} ({fa} < {fb})"
            );
        }
    }
}

#[test]
fn lt_bits_matches_ieee_on_random_patterns() {
    // A cheap linear-congruential walk over bit patterns; no dependence on
    // the library under test.
    let mut x: u32 = 0x1234_5678;
    let mut patterns: Vec<u32> = Vec::new();
    for _ in 0..64 {
        x = x.wrapping_mul(1_664_525).wrapping_add(1_013_904_223);
        patterns.push(x);
    }
    for &a in patterns.iter() {
        for &b in patterns.iter() {
            assert_eq!(lt_bits(a, b), f32::from_bits(a) < f32::from_bits(b));
        }
    }
}

#[test]
fn is_pos_bits_matches_ieee_sign_test() {
    for &a in SAMPLES.iter() {
        assert_eq!(
            is_pos_bits(a),
            f32::from_bits(a) > 0.0,
            "is_pos_bits disagreed on {a:#010x}"
        );
    }
}

#[test]
fn angle_range_nonempty_matches_ieee() {
    for &lo in SAMPLES.iter() {
        for &hi in SAMPLES.iter() {
            let r = AngleRange { lo, hi };
            assert_eq!(r.nonempty(), f32::from_bits(lo) < f32::from_bits(hi));
        }
    }
}
