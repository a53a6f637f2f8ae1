//! Points and quaternions, component by component.

use crate::scalar::Scalar;
use vstd::prelude::*;

verus! {

/// A position or a displacement, in the absolute frame or in the frame of a
/// body, in one unit of length.
#[derive(Clone, Copy, Debug)]
pub struct Vec3d {
    pub x: Scalar,
    pub y: Scalar,
    pub z: Scalar,
}

/// A quaternion. The catalogue carries these through untouched.
#[derive(Clone, Copy, Debug)]
pub struct Vec4d {
    pub w: Scalar,
    pub x: Scalar,
    pub y: Scalar,
    pub z: Scalar,
}

impl Vec4d {
    /// The quaternion of the four components.
    pub fn new(w: Scalar, x: Scalar, y: Scalar, z: Scalar) -> (r: Vec4d)
        ensures
            r == (Vec4d { w, x, y, z }),
    {
        Vec4d { w, x, y, z }
    }
}

impl Vec3d {
    /// The three components are the same numbers.
    pub open spec fn same_point(self, other: Vec3d) -> bool {
        &&& self.x.same_number(other.x)
        &&& self.y.same_number(other.y)
        &&& self.z.same_number(other.z)
    }

    /// The angle that a rotation is carried out with: a NaN counts as no
    /// rotation at all.
    pub open spec fn effective_angle(angle: Scalar) -> Scalar {
        if angle.nan() {
            Scalar { bits: 0 }
        } else {
            angle
        }
    }

    /// The vector turned about the z axis, where `turned_x` and `turned_y`
    /// are the planar components that the turn by `angle` gives: a turn by
    /// nothing leaves the vector as it is, and no turn touches `z`.
    pub open spec fn rotated(self, angle: Scalar, turned_x: Scalar, turned_y: Scalar) -> Vec3d {
        if Self::effective_angle(angle).zero() {
            self
        } else {
            Vec3d { x: turned_x, y: turned_y, z: self.z }
        }
    }

    /// The vector of the three components.
    pub fn new(x: Scalar, y: Scalar, z: Scalar) -> (r: Vec3d)
        ensures
            r == (Vec3d { x, y, z }),
    {
        Vec3d { x, y, z }
    }

    /// The origin.
    pub fn origin() -> (r: Vec3d)
        ensures
            r == (Vec3d { x: Scalar { bits: 0 }, y: Scalar { bits: 0 }, z: Scalar { bits: 0 } }),
    {
        Vec3d { x: Scalar::zero_value(), y: Scalar::zero_value(), z: Scalar::zero_value() }
    }

    /// Numeric equality of two points, component by component.
    pub fn equals(&self, other: &Vec3d) -> (r: bool)
        ensures
            r == self.same_point(*other),
    {
        self.x.float_eq(other.x) && self.y.float_eq(other.y) && self.z.float_eq(other.z)
    }

    /// The angle to turn by, in radians, after the rule for a NaN.
    pub fn rotation_argument(angle: Scalar) -> (r: Scalar)
        ensures
            r == Self::effective_angle(angle),
            !r.nan(),
    {
        if angle.is_nan() {
            Scalar::zero_value()
        } else {
            angle
        }
    }

    /// Turns the vector about the z axis by `angle` radians. The caller has
    /// computed the planar components of the turned vector,
    /// `turned_x = cos(angle) * x - sin(angle) * y` and
    /// `turned_y = sin(angle) * x + cos(angle) * y`; they are taken over unless
    /// the angle is a NaN or a zero, in which case the vector is returned
    /// untouched.
    pub fn rotate(&self, angle: Scalar, turned_x: Scalar, turned_y: Scalar) -> (r: Vec3d)
        ensures
            r == self.rotated(angle, turned_x, turned_y),
            r.z == self.z,
            angle.nan() || angle.zero() ==> r == *self,
    {
        if Self::rotation_argument(angle).is_zero() {
            *self
        } else {
            Vec3d { x: turned_x, y: turned_y, z: self.z }
        }
    }
}

/// A turn by a NaN is a turn by zero, and a turn by zero changes nothing,
/// whatever components are offered for the turned vector.
pub proof fn lemma_rotate_nan_is_identity(
    v: Vec3d,
    angle: Scalar,
    turned_x: Scalar,
    turned_y: Scalar,
    other_x: Scalar,
    other_y: Scalar,
)
    requires
        angle.nan(),
    ensures
        v.rotated(angle, turned_x, turned_y) == v.rotated(Scalar { bits: 0 }, other_x, other_y),
        v.rotated(Scalar { bits: 0 }, other_x, other_y) == v,
{
}

} // verus!
