//! Surface parameters.
use vstd::prelude::*;
use vstd::arithmetic::power2::lemma2_to64;
use vstd::arithmetic::power2::pow2;
use crate::color::Rgba;
use crate::scalar::Scalar;
use crate::scalar::ONE_BITS;
use crate::value::lemma_whole_below_one;
use crate::value::lemma_whole_grows;
use crate::value::lemma_whole_shifts_right;
use crate::vec3::Vec3;

verus! {

/// The pattern of 255, the most that a colour channel holds.
pub const CHANNEL_MAX_BITS: u32 = 0x437f_0000;

/// How a surface answers light.
///
/// `albedo` holds four weights, in this order: diffuse, specular, reflective,
/// transmissive. `alpha` is the opacity, one for an opaque surface.
#[derive(Clone, Copy, Debug, PartialEq, Eq)]
pub struct Material {
    pub diffuse: Vec3,
    pub albedo: [Scalar; 4],
    pub specular: Scalar,
    pub refractive_index: Scalar,
    pub alpha: Scalar,
}

impl Material {
    /// The weight of the diffuse term.
    pub open spec fn diffuse_weight(self) -> Scalar {
        self.albedo[0]
    }

    /// The weight of the specular highlight.
    pub open spec fn specular_weight(self) -> Scalar {
        self.albedo[1]
    }

    /// The weight of the mirror reflection.
    pub open spec fn reflective_weight(self) -> Scalar {
        self.albedo[2]
    }

    /// The weight of the transmitted light.
    pub open spec fn transmissive_weight(self) -> Scalar {
        self.albedo[3]
    }

    /// The neutral material of a miss: black, all weights zero, opaque.
    pub open spec fn black_spec() -> Material {
        Material {
            diffuse: Vec3::zero_spec(),
            albedo: [Scalar { bits: 0 }, Scalar { bits: 0 }, Scalar { bits: 0 }, Scalar { bits: 0 }],
            specular: Scalar { bits: 0 },
            refractive_index: Scalar { bits: 0 },
            alpha: Scalar { bits: ONE_BITS },
        }
    }

    /// A material of the given parameters.
    pub fn new(
        diffuse: Vec3,
        specular: Scalar,
        albedo: [Scalar; 4],
        refractive_index: Scalar,
        alpha: Scalar,
    ) -> (r: Material)
        ensures
            r == (Material { diffuse, albedo, specular, refractive_index, alpha }),
    {
        Material { diffuse, albedo, specular, refractive_index, alpha }
    }

    /// The neutral material of a miss.
    #[verifier::when_used_as_spec(black_spec)]
    pub fn black() -> (r: Material)
        ensures
            r == Material::black_spec(),
    {
        let z: Scalar = Scalar { bits: 0 };
        Material {
            diffuse: Vec3::zero(),
            albedo: [z, z, z, z],
            specular: z,
            refractive_index: z,
            alpha: Scalar { bits: ONE_BITS },
        }
    }
}

/// One channel of a pixel, from the channel of a colour times 255: its whole
/// part, and 255 where that would be more. What is below zero gives 0, what
/// is no number gives 255.
pub open spec fn channel_spec(x: Scalar) -> u8 {
    let whole = x.min_of(Scalar { bits: CHANNEL_MAX_BITS }).index_spec();
    if whole >= 255 {
        255u8
    } else {
        whole as u8
    }
}

/// One channel of a pixel, see [`channel_spec`].
pub fn channel(x: Scalar) -> (r: u8)
    ensures
        r == channel_spec(x),
        r == x.min_of(Scalar { bits: CHANNEL_MAX_BITS }).index_spec(),
        x.nan() || (Scalar { bits: CHANNEL_MAX_BITS }).less_eq(x) ==> r == 255,
        x.less(Scalar::one_spec()) ==> r == 0,
{
    let top: Scalar = Scalar::from_bits(CHANNEL_MAX_BITS);
    let capped: Scalar = x.min(top);
    proof {
        lemma_whole_of_channel_max();
        if !capped.sign() {
            lemma_whole_grows(capped, top);
        }
        if x.less(Scalar::one_spec()) && !x.sign() {
            lemma_whole_below_one(x);
        }
    }
    let whole: usize = capped.to_index();
    if whole >= 255 {
        255
    } else {
        whole as u8
    }
}

/// The pixel of a colour and an opacity that have been scaled to the range
/// of a pixel: `scaled` holds the three channels of the colour times 255,
/// `scaled_alpha` the opacity times 255. Each is cut off to a byte, see
/// [`channel_spec`]. Nothing is held to the range of a pixel before this.
pub fn pixel_of_scaled(scaled: Vec3, scaled_alpha: Scalar) -> (r: Rgba)
    ensures
        r == (Rgba {
            r: channel_spec(scaled.x),
            g: channel_spec(scaled.y),
            b: channel_spec(scaled.z),
            a: channel_spec(scaled_alpha),
        }),
{
    Rgba { r: channel(scaled.x), g: channel(scaled.y), b: channel(scaled.z), a: channel(scaled_alpha) }
}

/// The pattern of 255 encodes a number whose whole part is 255.
pub proof fn lemma_whole_of_channel_max()
    ensures
        (Scalar { bits: CHANNEL_MAX_BITS }).whole() == 255,
        (Scalar { bits: CHANNEL_MAX_BITS }).index_spec() == 255,
{
    let top = Scalar { bits: CHANNEL_MAX_BITS };
    assert(top.exponent() == 134 && top.mantissa() == 0x7f_0000);
    lemma_whole_shifts_right(top);
    lemma2_to64();
    assert(pow2(16) == 0x1_0000);
    assert(top.whole() == 0xff_0000int / 0x1_0000int);
}

} // verus!
