//! What the camera decides when it orbits its centre.
use vstd::prelude::*;
use crate::scalar::Scalar;

verus! {

/// The pattern of 1.5, the steepest pitch in radians: a little less than a
/// right angle, so that the camera never looks straight along its up vector.
pub const PITCH_LIMIT_BITS: u32 = 0x3fc0_0000;

/// The pattern of -1.5.
pub const NEG_PITCH_LIMIT_BITS: u32 = 0xbfc0_0000;

/// A pitch held between -1.5 and 1.5 radians.
pub open spec fn clamp_pitch_spec(pitch: Scalar) -> Scalar {
    pitch.clamp_of(Scalar { bits: NEG_PITCH_LIMIT_BITS }, Scalar { bits: PITCH_LIMIT_BITS })
}

/// The pitch of an orbiting camera, held between -1.5 and 1.5 radians. A
/// pitch within the limits is kept as it is.
pub fn clamp_pitch(pitch: Scalar) -> (r: Scalar)
    ensures
        r == clamp_pitch_spec(pitch),
        !pitch.nan() ==> (Scalar { bits: NEG_PITCH_LIMIT_BITS }).less_eq(r) && r.less_eq(
            Scalar { bits: PITCH_LIMIT_BITS },
        ),
        (Scalar { bits: NEG_PITCH_LIMIT_BITS }).less_eq(pitch) && pitch.less_eq(
            Scalar { bits: PITCH_LIMIT_BITS },
        ) ==> r == pitch,
{
    pitch.clamp(Scalar::from_bits(NEG_PITCH_LIMIT_BITS), Scalar::from_bits(PITCH_LIMIT_BITS))
}

} // verus!
