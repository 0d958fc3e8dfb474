use webgl_texture::float_bits::{f32_bits_ge_one, f32_bits_to_i32};

#[test]
fn bits_to_i32_matches_the_saturating_cast() {
    let samples: [f32; 22] = [
        0.0,
        -0.0,
        1.0,
        -1.0,
        1.5,
        -2.7,
        0.99,
        -0.99,
        9728.0,
        9729.75,
        -9984.5,
        16.0,
        1.0e10,
        -1.0e10,
        3.4e38,
        -3.4e38,
        f32::INFINITY,
        f32::NEG_INFINITY,
        f32::NAN,
        2147483648.0,
        -2147483648.0,
        2147483520.0,
    ];
    for f in samples {
        assert_eq!(f32_bits_to_i32(f.to_bits()), f as i32, "sample {f}");
    }
}

#[test]
fn bits_to_i32_smallest_subnormal_and_extremes() {
    assert_eq!(f32_bits_to_i32(f32::MIN_POSITIVE.to_bits()), 0);
    assert_eq!(f32_bits_to_i32(1), 0); // smallest positive subnormal
    // i32::MAX rounds up to 2^31 as a float; casting back saturates
    assert_eq!(f32_bits_to_i32((i32::MAX as f32).to_bits()), i32::MAX);
    assert_eq!(f32_bits_to_i32((i32::MIN as f32).to_bits()), i32::MIN);
}

#[test]
fn ge_one_matches_the_float_comparison() {
    let samples: [f32; 14] = [
        0.0,
        -0.0,
        0.5,
        0.9999999,
        1.0,
        1.0000001,
        2.5,
        1.0e10,
        f32::INFINITY,
        f32::NEG_INFINITY,
        f32::NAN,
        -1.0,
        -0.5,
        f32::MIN_POSITIVE,
    ];
    for f in samples {
        assert_eq!(f32_bits_ge_one(f.to_bits()), f >= 1.0, "sample {f}");
    }
}
