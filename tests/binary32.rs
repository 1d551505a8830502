use fast_inv_sqrt::binary32::{estimate_32, seed_32, MAGIC_32};
use fast_inv_sqrt::estimate::Estimate;

/// Runs the whole 32-bit approximation: the checked first step from the
/// library, then one Newton step on the estimate.
fn approx_inv_sqrt_32(x: f32) -> f32 {
    match estimate_32(x.to_bits()) {
        Estimate::NotANumber => f32::NAN,
        Estimate::Zero => 0.0,
        Estimate::Infinity => f32::INFINITY,
        Estimate::Seed(bits) => {
            let y = f32::from_bits(bits);
            let x2 = x * 0.5f32;
            y * (1.5f32 - (x2 * y * y))
        }
    }
}

fn ref_inv_sqrt32(f: f32) -> f32 {
    1.0f32 / f.sqrt()
}

#[test]
#[allow(deprecated)]
fn test_f32() {
    let value: f32 = 11.1111;
    assert!(approx_inv_sqrt_32(value).abs_sub(0.3f32) <= 0.000001);

    let mut value: f32 = 0.0f32;
    while value < 100.4f32 {
        assert!(approx_inv_sqrt_32(value).abs_sub(ref_inv_sqrt32(value)) <= 0.000001);
        value += 0.05f32;
    }
}

#[test]
fn lib_test_zero() {
    let zero = 0.0f32;
    assert_eq!(approx_inv_sqrt_32(zero), f32::INFINITY);
}

#[test]
fn lib_test_negative() {
    let negative = -1.0f32;
    assert!(approx_inv_sqrt_32(negative).is_nan());
}

#[test]
#[allow(deprecated)]
fn lib_test_i8() {
    let value: i8 = 55;
    assert!(approx_inv_sqrt_32(value as f32).abs_sub(0.1348399725f32) <= 0.000001);
}

#[test]
fn infinity_gives_zero_32() {
    assert_eq!(approx_inv_sqrt_32(f32::INFINITY), 0.0);
    assert_eq!(estimate_32(0x7f80_0000), Estimate::Zero);
}

#[test]
fn nan_gives_nan_32() {
    assert!(approx_inv_sqrt_32(f32::NAN).is_nan());
    assert_eq!(estimate_32(0x7fc0_0000), Estimate::NotANumber);
    assert_eq!(estimate_32(0x7f80_0001), Estimate::NotANumber);
    assert_eq!(estimate_32(0xffc0_0000), Estimate::NotANumber);
}

#[test]
fn sign_bit_gives_nan_32() {
    assert_eq!(estimate_32(0x8000_0000), Estimate::NotANumber);
    assert_eq!(estimate_32(0xff80_0000), Estimate::NotANumber);
    assert_eq!(estimate_32((-1.0f32).to_bits()), Estimate::NotANumber);
    assert!(approx_inv_sqrt_32(f32::NEG_INFINITY).is_nan());
}

#[test]
fn zero_and_subnormal_give_infinity_32() {
    assert_eq!(estimate_32(0), Estimate::Infinity);
    assert_eq!(estimate_32(1), Estimate::Infinity);
    assert_eq!(estimate_32(0x007f_ffff), Estimate::Infinity);
    assert_eq!(approx_inv_sqrt_32(f32::from_bits(1)), f32::INFINITY);
}

#[test]
fn seed_of_one_32() {
    assert_eq!(MAGIC_32, 0x5f37_5a86);
    assert_eq!(estimate_32(1.0f32.to_bits()), Estimate::Seed(0x3f77_5a86));
    assert_eq!(seed_32(0x3f80_0000), 0x3f77_5a86);
}

#[test]
fn seed_at_normal_bounds_32() {
    assert_eq!(estimate_32(0x0080_0000), Estimate::Seed(0x5ef7_5a86));
    assert_eq!(estimate_32(0x7f7f_ffff), Estimate::Seed(0x1f77_5a87));
}

#[test]
fn unchecked_seed_wraps_on_sign_bit_32() {
    assert_eq!(seed_32(0xbf80_0000), 0xff77_5a86);
}

#[test]
fn checks_transparent_on_positive_normal_32() {
    let mut value: f32 = 0.05f32;
    while value < 100.4f32 {
        let bits = value.to_bits();
        assert_eq!(estimate_32(bits), Estimate::Seed(seed_32(bits)));
        value += 0.05f32;
    }
    for bits in [0x0080_0000u32, 0x3f80_0000, 0x7f7f_ffff] {
        assert_eq!(estimate_32(bits), Estimate::Seed(seed_32(bits)));
    }
}

#[test]
fn seed_is_positive_normal_32() {
    for bits in [0x0080_0000u32, 0x3f80_0000, 0x4130_0000, 0x7f7f_ffff] {
        let y = f32::from_bits(seed_32(bits));
        assert!(y.is_normal() && y.is_sign_positive());
    }
}

#[test]
fn unsigned_and_wide_inputs_32() {
    let value: u64 = 100;
    assert!((approx_inv_sqrt_32(value as f32) - 0.1).abs() <= 0.0002);
    let wide: f64 = 4.0;
    assert!((approx_inv_sqrt_32(wide as f32) - 0.5).abs() <= 0.001);
}

#[test]
fn seed_exponent_halves_32() {
    for bits in [0x0080_0000u32, 0x3f80_0000, 0x4130_0000, 0x4b00_0000, 0x7f7f_ffff] {
        let e = (bits >> 23) & 0xff;
        let f = (seed_32(bits) >> 23) & 0xff;
        assert!(190 - e / 2 <= f + 1 && f <= 190 - e / 2);
    }
    assert_eq!((seed_32(0x3f80_0000) >> 23) & 0xff, 126);
}
