use lightmarch::pixel::{quantize, BYTE_TOP};
use lightmarch::scalar::Scalar;

fn s(x: f64) -> Scalar {
    Scalar::from_bits(x.to_bits())
}

#[test]
fn byte_top_is_255() {
    assert_eq!(BYTE_TOP, 255.0f64.to_bits());
}

#[test]
fn quantize_cuts_off_the_fraction() {
    assert_eq!(quantize(s(0.0)), 0);
    assert_eq!(quantize(s(0.999)), 0);
    assert_eq!(quantize(s(1.0)), 1);
    assert_eq!(quantize(s(1.5)), 1);
    assert_eq!(quantize(s(1.999_999_999)), 1);
    assert_eq!(quantize(s(2.0)), 2);
    assert_eq!(quantize(s(3.75)), 3);
    assert_eq!(quantize(s(127.5)), 127);
    assert_eq!(quantize(s(128.0)), 128);
    assert_eq!(quantize(s(254.999)), 254);
    assert_eq!(quantize(s(255.0)), 255);
}

#[test]
fn quantize_caps_at_255() {
    assert_eq!(quantize(s(255.001)), 255);
    assert_eq!(quantize(s(256.0)), 255);
    assert_eq!(quantize(s(6.0 * 255.0)), 255);
    assert_eq!(quantize(s(1e300)), 255);
    assert_eq!(quantize(s(f64::INFINITY)), 255);
}

#[test]
fn quantize_of_no_number_is_255() {
    assert_eq!(quantize(s(f64::NAN)), 255);
    assert_eq!(quantize(s(-f64::NAN)), 255);
}

#[test]
fn quantize_of_what_is_negative_is_0() {
    assert_eq!(quantize(s(-0.0)), 0);
    assert_eq!(quantize(s(-0.5)), 0);
    assert_eq!(quantize(s(-1.0)), 0);
    assert_eq!(quantize(s(-300.0)), 0);
    assert_eq!(quantize(s(f64::NEG_INFINITY)), 0);
}

#[test]
fn quantize_of_the_smallest_numbers_is_0() {
    assert_eq!(quantize(s(f64::from_bits(1))), 0);
    assert_eq!(quantize(s(f64::MIN_POSITIVE)), 0);
    assert_eq!(quantize(s(1e-300)), 0);
    assert_eq!(quantize(s(1.0 - f64::EPSILON)), 0);
}

#[test]
fn quantize_agrees_with_the_conversion_of_binary64() {
    let mut x = -3.0f64;
    while x < 300.0 {
        assert_eq!(quantize(s(x)), f64::min(x, 255.0) as u8, "{:?}", x);
        x += 0.0625 + x.abs() * 1e-3;
    }
    for byte in 0..=255u32 {
        let whole = byte as f64;
        assert_eq!(quantize(s(whole)), byte as u8);
        assert_eq!(quantize(s(whole + 0.5)), f64::min(whole + 0.5, 255.0) as u8);
        let above = f64::from_bits(whole.to_bits() + 1);
        assert_eq!(quantize(s(above)), f64::min(above, 255.0) as u8);
        if byte > 0 {
            let below = f64::from_bits(whole.to_bits() - 1);
            assert_eq!(quantize(s(below)), (byte - 1) as u8);
        }
    }
}

#[test]
fn quantize_of_scaled_channels() {
    for channel in [0.0, 0.001, 0.25, 0.5, 0.999, 1.0, 1.5, 6.0] {
        assert_eq!(quantize(s(channel * 255.0)), f64::min(channel * 255.0, 255.0) as u8);
    }
    assert_eq!(quantize(s(0.5 * 255.0)), 127);
    assert_eq!(quantize(s(0.25 * 255.0)), 63);
}
