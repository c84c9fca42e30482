//! The numeric types of the host engine. The library stores and hands on
//! values of these types and never computes with them.

use bevy::math::{Mat4, Quat, Vec3};
use vstd::prelude::*;

verus! {

/// `bevy::math::Quat`, a rotation. Opaque: nothing is claimed about its
/// components.
#[verifier::external_type_specification]
#[verifier::external_body]
pub struct ExQuat(Quat);

/// `bevy::math::Vec3`, a position or direction. Opaque: nothing is claimed
/// about its components.
#[verifier::external_type_specification]
#[verifier::external_body]
pub struct ExVec3(Vec3);

/// `bevy::math::Mat4`, a transform as a matrix. Opaque: nothing is claimed
/// about its components.
#[verifier::external_type_specification]
#[verifier::external_body]
pub struct ExMat4(Mat4);

/// Where a node stands: its translation, its rotation and its scale,
/// relative to its parent or in world space.
#[derive(Debug, Clone, Copy, PartialEq)]
pub struct Placement {
    pub translation: Vec3,
    pub rotation: Quat,
    pub scale: Vec3,
}

/// A single-precision number of a model's description, carried as its 32
/// bits. The library hands such numbers on and never computes with them.
#[derive(Debug, Clone, Copy)]
pub struct Scalar {
    pub bits: u32,
}

impl Scalar {
    /// The number zero.
    pub fn zero() -> (zero: Self)
        ensures
            zero.bits == 0,
    {
        Scalar { bits: 0 }
    }

    /// The number minus one.
    pub fn minus_one() -> (minus_one: Self)
        ensures
            minus_one.bits == 0xBF80_0000,
    {
        Scalar { bits: 0xBF80_0000 }
    }

    pub fn from_bits(bits: u32) -> (scalar: Self)
        ensures
            scalar.bits == bits,
    {
        Scalar { bits }
    }

    pub fn to_bits(self) -> (bits: u32)
        ensures
            bits == self.bits,
    {
        self.bits
    }
}

} // verus!
