//! The parameters of the sky's scattering model.

use vstd::prelude::*;
use crate::scalar::{lemma_bits_below_infinity, Scalar};
use crate::transform::{Vec3, ONE_BITS};

verus! {

/// What the scattering model is evaluated with: where the viewer and the
/// sun are, how large the planet and its atmosphere are, and how strongly
/// the air (Rayleigh) and the haze (Mie) scatter light.
///
/// Rayleigh scattering depends on the wavelength, so its coefficient has
/// one component each for red, green and blue; Mie scattering is taken to
/// be the same for all three.
///
/// The material is plain data. A copy is independent of what it was copied
/// from, and two materials are equal when every parameter has the same bits.
#[derive(Clone, Copy, Debug, PartialEq, Eq, Structural)]
pub struct AtmosphereMat {
    /// Where the viewer stands, measured from the planet's centre.
    pub ray_origin: Vec3,
    /// Where the sun stands; only its direction matters.
    pub sun_position: Vec3,
    /// How bright the sun is.
    pub sun_intensity: Scalar,
    /// The radius of the planet.
    pub planet_radius: Scalar,
    /// The radius of the atmosphere, measured from the planet's centre.
    pub atmosphere_radius: Scalar,
    /// Rayleigh scattering coefficient for red, green and blue.
    pub rayleigh_coefficient: Vec3,
    /// Rayleigh scale height.
    pub rayleigh_scale_height: Scalar,
    /// Mie scattering coefficient.
    pub mie_coefficient: Scalar,
    /// Mie scale height.
    pub mie_scale_height: Scalar,
    /// Mie preferred scattering direction, between minus one and one.
    pub mie_direction: Scalar,
}

impl AtmosphereMat {
    /// The sky of the Earth on a clear day, in metres: a viewer a
    /// kilometre above the ground, the sun halfway up the sky.
    pub open spec fn earth() -> AtmosphereMat {
        AtmosphereMat {
            // (0, 6372e3, 0)
            ray_origin: Vec3 {
                x: Scalar { bits: 0x0000_0000 },
                y: Scalar { bits: 0x4ac2_7540 },
                z: Scalar { bits: 0x0000_0000 },
            },
            // (0, 1, 1)
            sun_position: Vec3 {
                x: Scalar { bits: 0x0000_0000 },
                y: Scalar { bits: 0x3f80_0000 },
                z: Scalar { bits: 0x3f80_0000 },
            },
            // 22
            sun_intensity: Scalar { bits: 0x41b0_0000 },
            // 6371e3
            planet_radius: Scalar { bits: 0x4ac2_6d70 },
            // 6471e3
            atmosphere_radius: Scalar { bits: 0x4ac5_7ab0 },
            // (5.5e-6, 13.0e-6, 22.4e-6)
            rayleigh_coefficient: Vec3 {
                x: Scalar { bits: 0x36b8_8ca4 },
                y: Scalar { bits: 0x375a_1a93 },
                z: Scalar { bits: 0x37bb_e7a2 },
            },
            // 8e3
            rayleigh_scale_height: Scalar { bits: 0x45fa_0000 },
            // 21e-6
            mie_coefficient: Scalar { bits: 0x37b0_2928 },
            // 1.2e3
            mie_scale_height: Scalar { bits: 0x4496_0000 },
            // 0.758
            mie_direction: Scalar { bits: 0x3f42_0c4a },
        }
    }

    /// The parameters describe a sky that can be drawn: the sun has a
    /// direction, the viewer is somewhere, every coefficient, height and
    /// radius is a finite number above zero, the atmosphere reaches above
    /// the ground, and the Mie direction lies strictly between minus one
    /// and one.
    pub open spec fn plausible(self) -> bool {
        &&& self.ray_origin.finite()
        &&& self.sun_position.normalizable()
        &&& self.sun_intensity.positive()
        &&& self.planet_radius.positive()
        &&& self.atmosphere_radius.positive()
        &&& self.planet_radius.bits < self.atmosphere_radius.bits
        &&& self.rayleigh_coefficient.x.positive()
        &&& self.rayleigh_coefficient.y.positive()
        &&& self.rayleigh_coefficient.z.positive()
        &&& self.rayleigh_scale_height.positive()
        &&& self.mie_coefficient.positive()
        &&& self.mie_scale_height.positive()
        &&& self.mie_direction.magnitude() < ONE_BITS
    }

    /// Whether the parameters describe a sky that can be drawn.
    pub fn is_plausible(&self) -> (b: bool)
        ensures
            b == self.plausible(),
    {
        self.ray_origin.is_finite() && self.sun_position.is_normalizable()
            && self.sun_intensity.is_positive() && self.planet_radius.is_positive()
            && self.atmosphere_radius.is_positive() && self.planet_radius.to_bits()
            < self.atmosphere_radius.to_bits() && self.rayleigh_coefficient.x.is_positive()
            && self.rayleigh_coefficient.y.is_positive()
            && self.rayleigh_coefficient.z.is_positive()
            && self.rayleigh_scale_height.is_positive() && self.mie_coefficient.is_positive()
            && self.mie_scale_height.is_positive() && self.mie_direction.abs().to_bits()
            < ONE_BITS
    }
}

impl Default for AtmosphereMat {
    /// The sky of the Earth on a clear day.
    fn default() -> (m: AtmosphereMat)
        ensures
            m == AtmosphereMat::earth(),
            m.plausible(),
    {
        proof {
            lemma_earth_is_plausible();
        }
        AtmosphereMat {
            ray_origin: Vec3::from_bits(0x0000_0000, 0x4ac2_7540, 0x0000_0000),
            sun_position: Vec3::from_bits(0x0000_0000, 0x3f80_0000, 0x3f80_0000),
            sun_intensity: Scalar::from_bits(0x41b0_0000),
            planet_radius: Scalar::from_bits(0x4ac2_6d70),
            atmosphere_radius: Scalar::from_bits(0x4ac5_7ab0),
            rayleigh_coefficient: Vec3::from_bits(0x36b8_8ca4, 0x375a_1a93, 0x37bb_e7a2),
            rayleigh_scale_height: Scalar::from_bits(0x45fa_0000),
            mie_coefficient: Scalar::from_bits(0x37b0_2928),
            mie_scale_height: Scalar::from_bits(0x4496_0000),
            mie_direction: Scalar::from_bits(0x3f42_0c4a),
        }
    }
}

/// The Earth preset describes a sky that can be drawn.
pub proof fn lemma_earth_is_plausible()
    ensures
        AtmosphereMat::earth().plausible(),
{
    let e = AtmosphereMat::earth();
    lemma_bits_below_infinity(e.ray_origin.x);
    lemma_bits_below_infinity(e.ray_origin.y);
    lemma_bits_below_infinity(e.ray_origin.z);
    lemma_bits_below_infinity(e.sun_position.x);
    lemma_bits_below_infinity(e.sun_position.y);
    lemma_bits_below_infinity(e.sun_position.z);
    assert(0x3f42_0c4au32 & 0x7fff_ffffu32 == 0x3f42_0c4au32) by (bit_vector);
}

/// In a material that can be drawn every scattering coefficient is a finite
/// number, no zero and not negative, and the sun's position is a vector
/// that can be brought to length one.
pub proof fn lemma_plausible_coefficients(m: AtmosphereMat)
    requires
        m.plausible(),
    ensures
        m.rayleigh_coefficient.finite(),
        !m.rayleigh_coefficient.x.zero() && !m.rayleigh_coefficient.x.sign_negative(),
        !m.rayleigh_coefficient.y.zero() && !m.rayleigh_coefficient.y.sign_negative(),
        !m.rayleigh_coefficient.z.zero() && !m.rayleigh_coefficient.z.sign_negative(),
        m.mie_coefficient.finite(),
        !m.mie_coefficient.zero() && !m.mie_coefficient.sign_negative(),
        m.sun_position.normalizable(),
{
    lemma_bits_below_infinity(m.rayleigh_coefficient.x);
    lemma_bits_below_infinity(m.rayleigh_coefficient.y);
    lemma_bits_below_infinity(m.rayleigh_coefficient.z);
    lemma_bits_below_infinity(m.mie_coefficient);
}

} // verus!
