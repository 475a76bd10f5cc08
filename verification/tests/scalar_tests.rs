use raytracer::camera::clamp_pitch;
use raytracer::camera::{NEG_PITCH_LIMIT_BITS, PITCH_LIMIT_BITS};
use raytracer::color::Rgba;
use raytracer::cube::{FACE_EPS_BITS, NEG_ONE_BITS};
use raytracer::material::{channel, pixel_of_scaled, CHANNEL_MAX_BITS};
use raytracer::value::{EXPONENT_OF_ONE, MANTISSA_SPAN};
use raytracer::vec3::Vec3;
use raytracer::plane::PLANE_EPS_BITS;
use raytracer::scalar::Scalar;
use raytracer::scalar::{INFINITY_BITS, NEG_INFINITY_BITS, ONE_BITS, SIGN_BIT};
use raytracer::shading::{DEFAULT_DEPTH, OPAQUE_BITS, PARTIAL_SHADOW_BITS};
use raytracer::slab::PARALLEL_EPS_BITS;

fn s(x: f32) -> Scalar {
    Scalar::from_bits(x.to_bits())
}

fn samples() -> Vec<f32> {
    vec![
        0.0,
        -0.0,
        1.0,
        -1.0,
        0.5,
        -0.5,
        1e-8,
        -1e-8,
        1e-4,
        1e-6,
        0.85,
        1.5,
        -1.5,
        255.0,
        3.0e38,
        -3.0e38,
        f32::MIN_POSITIVE,
        -f32::MIN_POSITIVE,
        f32::from_bits(1),
        f32::from_bits(0x8000_0001),
        f32::MAX,
        f32::MIN,
        f32::INFINITY,
        f32::NEG_INFINITY,
        f32::NAN,
        f32::from_bits(0xffc0_0000),
        f32::from_bits(0x7f80_0001),
    ]
}

fn same_number_or_both_nan(a: f32, b: f32) -> bool {
    (a.is_nan() && b.is_nan()) || a == b
}

#[test]
fn constants_are_the_patterns_of_their_numbers() {
    assert_eq!(f32::INFINITY.to_bits(), INFINITY_BITS);
    assert_eq!(f32::NEG_INFINITY.to_bits(), NEG_INFINITY_BITS);
    assert_eq!(1.0f32.to_bits(), ONE_BITS);
    assert_eq!((-1.0f32).to_bits(), NEG_ONE_BITS);
    assert_eq!((-0.0f32).to_bits(), SIGN_BIT);
    assert_eq!(1e-8f32.to_bits(), PARALLEL_EPS_BITS);
    assert_eq!(1e-4f32.to_bits(), FACE_EPS_BITS);
    assert_eq!(1e-6f32.to_bits(), PLANE_EPS_BITS);
    assert_eq!(0.85f32.to_bits(), OPAQUE_BITS);
    assert_eq!(0.4f32.to_bits(), PARTIAL_SHADOW_BITS);
    assert_eq!(1.5f32.to_bits(), PITCH_LIMIT_BITS);
    assert_eq!((-1.5f32).to_bits(), NEG_PITCH_LIMIT_BITS);
    assert_eq!(255.0f32.to_bits(), CHANNEL_MAX_BITS);
    assert_eq!(1.0f32.to_bits() / MANTISSA_SPAN, EXPONENT_OF_ONE);
    assert_eq!(DEFAULT_DEPTH, 4);
}

#[test]
fn named_scalars() {
    assert_eq!(Scalar::zero().to_bits(), 0.0f32.to_bits());
    assert_eq!(Scalar::one().to_bits(), 1.0f32.to_bits());
    assert_eq!(Scalar::infinity().to_bits(), f32::INFINITY.to_bits());
    assert_eq!(Scalar::neg_infinity().to_bits(), f32::NEG_INFINITY.to_bits());
    assert_eq!(Scalar::from_bits(0x1234_5678).to_bits(), 0x1234_5678);
}

#[test]
fn is_nan_agrees_with_the_numbers() {
    for a in samples() {
        assert_eq!(s(a).is_nan(), a.is_nan(), "{a}");
    }
}

#[test]
fn comparisons_agree_with_the_numbers() {
    for a in samples() {
        for b in samples() {
            assert_eq!(s(a).lt(s(b)), a < b, "{a} < {b}");
            assert_eq!(s(a).le(s(b)), a <= b, "{a} <= {b}");
            assert_eq!(s(a).gt(s(b)), a > b, "{a} > {b}");
            assert_eq!(s(a).ge(s(b)), a >= b, "{a} >= {b}");
            assert_eq!(s(a).le(s(b)) && s(a).ge(s(b)), a == b, "{a} == {b}");
        }
    }
}

#[test]
fn order_key_of_known_numbers() {
    assert_eq!(s(0.0).order_key(), 0);
    assert_eq!(s(-0.0).order_key(), 0);
    assert_eq!(s(1.0).order_key(), 0x3f80_0000);
    assert_eq!(s(-1.0).order_key(), -0x3f80_0000);
    assert_eq!(s(f32::INFINITY).order_key(), 0x7f80_0000);
    assert_eq!(s(f32::NEG_INFINITY).order_key(), -0x7f80_0000);
    assert_eq!(Scalar::from_bits(0xffff_ffff).order_key(), -0x7fff_ffff);
}

#[test]
fn abs_and_neg_agree_with_the_numbers() {
    for a in samples() {
        assert_eq!(s(a).abs().to_bits(), a.abs().to_bits(), "abs {a}");
        assert_eq!(s(a).neg().to_bits(), (-a).to_bits(), "neg {a}");
    }
}

#[test]
fn max_and_min_agree_with_the_numbers() {
    for a in samples() {
        for b in samples() {
            let hi = f32::from_bits(s(a).max(s(b)).to_bits());
            let lo = f32::from_bits(s(a).min(s(b)).to_bits());
            assert!(same_number_or_both_nan(hi, a.max(b)), "max {a} {b}");
            assert!(same_number_or_both_nan(lo, a.min(b)), "min {a} {b}");
        }
    }
}

#[test]
fn max_keeps_the_first_of_equals_and_drops_a_nan() {
    assert_eq!(s(-0.0).max(s(0.0)).to_bits(), (-0.0f32).to_bits());
    assert_eq!(s(0.0).max(s(-0.0)).to_bits(), 0.0f32.to_bits());
    assert_eq!(s(f32::NAN).max(s(2.0)).to_bits(), 2.0f32.to_bits());
    assert_eq!(s(2.0).max(s(f32::NAN)).to_bits(), 2.0f32.to_bits());
    assert_eq!(s(f32::NAN).min(s(2.0)).to_bits(), 2.0f32.to_bits());
    assert_eq!(s(2.0).min(s(f32::NAN)).to_bits(), 2.0f32.to_bits());
    assert_eq!(s(3.0).max(s(2.0)).to_bits(), 3.0f32.to_bits());
    assert_eq!(s(3.0).min(s(2.0)).to_bits(), 2.0f32.to_bits());
}

#[test]
fn clamp_agrees_with_the_numbers() {
    let bounds = [(0.0f32, 1.0f32), (-1.5, 1.5), (-0.0, 0.0), (2.0, 2.0), (f32::NEG_INFINITY, 0.0)];
    for a in samples() {
        for (lo, hi) in bounds {
            let got = f32::from_bits(s(a).clamp(s(lo), s(hi)).to_bits());
            assert!(same_number_or_both_nan(got, a.clamp(lo, hi)), "clamp {a} {lo} {hi}");
        }
    }
}

#[test]
fn clamp_pitch_holds_the_pitch_within_the_limits() {
    assert_eq!(clamp_pitch(s(0.3)).to_bits(), 0.3f32.to_bits());
    assert_eq!(clamp_pitch(s(1.5)).to_bits(), 1.5f32.to_bits());
    assert_eq!(clamp_pitch(s(1.6)).to_bits(), 1.5f32.to_bits());
    assert_eq!(clamp_pitch(s(-1.6)).to_bits(), (-1.5f32).to_bits());
    assert_eq!(clamp_pitch(s(f32::INFINITY)).to_bits(), 1.5f32.to_bits());
    assert_eq!(clamp_pitch(s(f32::NEG_INFINITY)).to_bits(), (-1.5f32).to_bits());
    assert!(f32::from_bits(clamp_pitch(s(f32::NAN)).to_bits()).is_nan());
    for a in samples() {
        let got = f32::from_bits(clamp_pitch(s(a)).to_bits());
        assert!(same_number_or_both_nan(got, a.clamp(-1.5, 1.5)), "pitch {a}");
    }
}

#[test]
fn to_index_cuts_off_at_the_point() {
    assert_eq!(s(0.0).to_index(), 0);
    assert_eq!(s(-0.0).to_index(), 0);
    assert_eq!(s(0.999_999_94).to_index(), 0);
    assert_eq!(s(1.0).to_index(), 1);
    assert_eq!(s(1.999_999_9).to_index(), 1);
    assert_eq!(s(2.0).to_index(), 2);
    assert_eq!(s(127.5).to_index(), 127);
    assert_eq!(s(255.0).to_index(), 255);
    assert_eq!(s(16_777_215.0).to_index(), 16_777_215);
    assert_eq!(s(16_777_216.0).to_index(), 16_777_216);
    assert_eq!(s(33_554_432.0).to_index(), 33_554_432);
    assert_eq!(s(-1.0).to_index(), 0);
    assert_eq!(s(-0.5).to_index(), 0);
    assert_eq!(s(-1e30).to_index(), 0);
    assert_eq!(s(f32::NAN).to_index(), 0);
    assert_eq!(s(f32::INFINITY).to_index(), usize::MAX);
    assert_eq!(s(f32::NEG_INFINITY).to_index(), 0);
    assert_eq!(s(f32::MAX).to_index(), usize::MAX);
    assert_eq!(s(f32::MIN_POSITIVE).to_index(), 0);
}

#[test]
fn to_index_agrees_with_the_numbers() {
    for a in samples() {
        assert_eq!(s(a).to_index(), a as usize, "{a}");
        assert_eq!(s(a).to_index(), a.floor() as usize, "floor {a}");
    }
    // every exponent, with a few mantissas
    for e in 0u32..=255 {
        for m in [0u32, 1, 0x40_0000, 0x7f_ffff, 0x12_3456] {
            for sign in [0u32, 0x8000_0000] {
                let bits = sign | (e << 23) | m;
                let a = f32::from_bits(bits);
                assert_eq!(Scalar::from_bits(bits).to_index(), a as usize, "{bits:#x}");
            }
        }
    }
}

#[test]
fn channel_cuts_a_colour_off_to_a_byte() {
    assert_eq!(channel(s(0.0)), 0);
    assert_eq!(channel(s(0.5 * 255.0)), 127);
    assert_eq!(channel(s(0.9 * 255.0)), 229);
    assert_eq!(channel(s(0.1 * 255.0)), 25);
    assert_eq!(channel(s(254.999)), 254);
    assert_eq!(channel(s(255.0)), 255);
    assert_eq!(channel(s(1.2 * 255.0)), 255);
    assert_eq!(channel(s(-0.1 * 255.0)), 0);
    assert_eq!(channel(s(f32::NAN)), 255);
    assert_eq!(channel(s(f32::INFINITY)), 255);
    assert_eq!(channel(s(f32::NEG_INFINITY)), 0);
    for a in samples() {
        assert_eq!(channel(s(a)), a.min(255.0) as u8, "{a}");
    }
    for k in 0..=2600 {
        let a = k as f32 * 0.1 - 2.0;
        assert_eq!(channel(s(a)), a.min(255.0) as u8, "{a}");
    }
}

/// The pixel of a colour whose channels run from 0 to 1, as a renderer
/// makes it: scaled here, cut off by the library.
fn pixel(colour: [f32; 3], alpha: f32) -> Rgba {
    let scaled = Vec3::new(s(colour[0] * 255.0), s(colour[1] * 255.0), s(colour[2] * 255.0));
    pixel_of_scaled(scaled, s(alpha * 255.0))
}

#[test]
fn pixel_of_a_colour() {
    assert_eq!(pixel([0.9, 0.1, 0.1], 1.0), Rgba { r: 229, g: 25, b: 25, a: 255 });
    assert_eq!(pixel([1.7, -0.2, 0.0], 0.5), Rgba { r: 255, g: 0, b: 0, a: 127 });
    // above one is held to 255, below zero to 0, and 127.5 is cut off to 127
    assert_eq!(pixel([1.5, -0.2, 0.5], 1.0), Rgba { r: 255, g: 0, b: 127, a: 255 });
    assert_eq!(pixel([0.0, 1.0, 0.999], 0.0), Rgba { r: 0, g: 255, b: 254, a: 0 });
}

#[test]
fn pixel_of_scaled_cuts_off_what_it_is_given() {
    let scaled = Vec3::new(s(1.5), s(-0.2), s(0.5));
    assert_eq!(pixel_of_scaled(scaled, s(1.0)), Rgba { r: 1, g: 0, b: 0, a: 1 });
    let scaled = Vec3::new(s(254.9), s(255.0), s(300.0));
    assert_eq!(pixel_of_scaled(scaled, s(f32::NAN)), Rgba { r: 254, g: 255, b: 255, a: 255 });
}
