//! Vectors, rotations and world transforms.

use vstd::prelude::*;
use crate::scalar::Scalar;

verus! {

/// The bits of positive zero.
pub const ZERO_BITS: u32 = 0x0000_0000;

/// The bits of one.
pub const ONE_BITS: u32 = 0x3f80_0000;

/// Three scalars: a point, a direction or a triple of coefficients.
#[derive(Clone, Copy, Debug, PartialEq, Eq, Structural)]
pub struct Vec3 {
    pub x: Scalar,
    pub y: Scalar,
    pub z: Scalar,
}

impl Vec3 {
    /// The vector of three positive zeros.
    pub open spec fn zero() -> Vec3 {
        Vec3 {
            x: Scalar { bits: ZERO_BITS },
            y: Scalar { bits: ZERO_BITS },
            z: Scalar { bits: ZERO_BITS },
        }
    }

    /// The vector of three ones.
    pub open spec fn one() -> Vec3 {
        Vec3 {
            x: Scalar { bits: ONE_BITS },
            y: Scalar { bits: ONE_BITS },
            z: Scalar { bits: ONE_BITS },
        }
    }

    /// Every component is finite.
    pub open spec fn finite(self) -> bool {
        self.x.finite() && self.y.finite() && self.z.finite()
    }

    /// The vector has a direction: every component is finite and not all of
    /// them are zeros.
    pub open spec fn normalizable(self) -> bool {
        &&& self.finite()
        &&& !(self.x.zero() && self.y.zero() && self.z.zero())
    }

    /// The vector with the given components.
    pub fn new(x: Scalar, y: Scalar, z: Scalar) -> (v: Vec3)
        ensures
            v == (Vec3 { x, y, z }),
    {
        Vec3 { x, y, z }
    }

    /// The vector with the given bit patterns as components.
    pub fn from_bits(x: u32, y: u32, z: u32) -> (v: Vec3)
        ensures
            v.x.bits == x,
            v.y.bits == y,
            v.z.bits == z,
    {
        Vec3 { x: Scalar { bits: x }, y: Scalar { bits: y }, z: Scalar { bits: z } }
    }

    /// Whether every component is finite.
    pub fn is_finite(&self) -> (b: bool)
        ensures
            b == self.finite(),
    {
        self.x.is_finite() && self.y.is_finite() && self.z.is_finite()
    }

    /// Whether the vector has a direction.
    pub fn is_normalizable(&self) -> (b: bool)
        ensures
            b == self.normalizable(),
    {
        self.is_finite() && !(self.x.is_zero() && self.y.is_zero() && self.z.is_zero())
    }
}

/// A rotation as a quaternion.
#[derive(Clone, Copy, Debug, PartialEq, Eq, Structural)]
pub struct Quat {
    pub x: Scalar,
    pub y: Scalar,
    pub z: Scalar,
    pub w: Scalar,
}

impl Quat {
    /// The rotation that turns nothing.
    pub open spec fn identity() -> Quat {
        Quat {
            x: Scalar { bits: ZERO_BITS },
            y: Scalar { bits: ZERO_BITS },
            z: Scalar { bits: ZERO_BITS },
            w: Scalar { bits: ONE_BITS },
        }
    }
}

/// Where an entity is in the world, after the scene graph has propagated
/// the transforms of the frame.
#[derive(Clone, Copy, Debug, PartialEq, Eq, Structural)]
pub struct GlobalTransform {
    pub translation: Vec3,
    pub rotation: Quat,
    pub scale: Vec3,
}

impl GlobalTransform {
    /// At the origin, not turned, not scaled.
    pub open spec fn spec_identity() -> GlobalTransform {
        GlobalTransform {
            translation: Vec3::zero(),
            rotation: Quat::identity(),
            scale: Vec3::one(),
        }
    }

    /// This transform moved to `translation`, its rotation and scale kept.
    pub open spec fn moved_to(self, translation: Vec3) -> GlobalTransform {
        GlobalTransform { translation, rotation: self.rotation, scale: self.scale }
    }

    /// The transform of an entity that was placed nowhere in particular.
    pub fn identity() -> (t: GlobalTransform)
        ensures
            t == GlobalTransform::spec_identity(),
    {
        GlobalTransform {
            translation: Vec3::from_bits(ZERO_BITS, ZERO_BITS, ZERO_BITS),
            rotation: Quat {
                x: Scalar { bits: ZERO_BITS },
                y: Scalar { bits: ZERO_BITS },
                z: Scalar { bits: ZERO_BITS },
                w: Scalar { bits: ONE_BITS },
            },
            scale: Vec3::from_bits(ONE_BITS, ONE_BITS, ONE_BITS),
        }
    }

    /// An unturned, unscaled transform at `translation`.
    pub fn from_translation(translation: Vec3) -> (t: GlobalTransform)
        ensures
            t == GlobalTransform::spec_identity().moved_to(translation),
    {
        let mut t = GlobalTransform::identity();
        t.translation = translation;
        t
    }
}

} // verus!
