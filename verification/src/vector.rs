//! Points, directions and colours: three quantities each.

use vstd::prelude::*;
use crate::scalar::Scalar;
use crate::scalar::EPSILON;

verus! {

/// Three quantities: a point, a direction, or the red, green and blue of a colour.
#[derive(Clone, Copy, Debug, PartialEq, Eq, Structural)]
pub struct Vector {
    pub x: Scalar,
    pub y: Scalar,
    pub z: Scalar,
}

impl Vector {
    /// Whether every component is below [`EPSILON`] in magnitude.
    pub open spec fn is_near_zero(self) -> bool {
        self.x.magnitude() < EPSILON && self.y.magnitude() < EPSILON && self.z.magnitude()
            < EPSILON
    }

    /// Whether every component is a number that is not infinite.
    pub open spec fn is_finite(self) -> bool {
        self.x.is_finite() && self.y.is_finite() && self.z.is_finite()
    }

    /// Tests whether every component is a number that is not infinite.
    pub fn finite(&self) -> (b: bool)
        ensures
            b == self.is_finite(),
    {
        self.x.finite() && self.y.finite() && self.z.finite()
    }

    /// Tests whether every component is below [`EPSILON`] in magnitude.
    pub fn near_zero(&self) -> (b: bool)
        ensures
            b == self.is_near_zero(),
    {
        self.x.abs().to_bits() < EPSILON && self.y.abs().to_bits() < EPSILON
            && self.z.abs().to_bits() < EPSILON
    }

    /// The vector of the three components.
    pub fn new(x: Scalar, y: Scalar, z: Scalar) -> (v: Vector)
        ensures
            v.x == x,
            v.y == y,
            v.z == z,
    {
        Vector { x, y, z }
    }

    /// The vector of three zeros.
    pub fn zeros() -> (v: Vector)
        ensures
            v.x.bits == 0,
            v.y.bits == 0,
            v.z.bits == 0,
    {
        Vector { x: Scalar::zero(), y: Scalar::zero(), z: Scalar::zero() }
    }

    /// The vector of three ones.
    pub fn ones() -> (v: Vector)
        ensures
            v.x.bits == crate::scalar::ONE,
            v.y.bits == crate::scalar::ONE,
            v.z.bits == crate::scalar::ONE,
    {
        Vector { x: Scalar::one(), y: Scalar::one(), z: Scalar::one() }
    }

    /// The opposite vector: every component with its sign flipped.
    pub open spec fn opposite(self) -> Vector {
        Vector { x: self.x.flipped(), y: self.y.flipped(), z: self.z.flipped() }
    }

    /// The opposite vector.
    pub fn neg(&self) -> (v: Vector)
        ensures
            v == self.opposite(),
    {
        Vector { x: self.x.neg(), y: self.y.neg(), z: self.z.neg() }
    }
}

/// A rotation in space, as a unit quaternion: three imaginary parts and the
/// real part.
#[derive(Clone, Copy, Debug, PartialEq, Eq, Structural)]
pub struct Quaternion {
    pub i: Scalar,
    pub j: Scalar,
    pub k: Scalar,
    pub w: Scalar,
}

impl Quaternion {
    /// The rotation that turns nothing.
    pub fn identity() -> (q: Quaternion)
        ensures
            q.i.bits == 0,
            q.j.bits == 0,
            q.k.bits == 0,
            q.w.bits == crate::scalar::ONE,
    {
        Quaternion { i: Scalar::zero(), j: Scalar::zero(), k: Scalar::zero(), w: Scalar::one() }
    }
}

} // verus!
