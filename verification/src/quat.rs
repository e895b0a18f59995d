use crate::mat4::Mat4;
use crate::scalar::{Real, Scalar};
use crate::vec3::Vec3;
use crate::vec4::Vec4;
use std::ops::{Add, Mul};
use vstd::prelude::*;
use vstd::std_specs::convert::FromSpecImpl;
use vstd::std_specs::ops::{AddSpecImpl, MulSpecImpl};

verus! {

/// A quaternion data type used for representing spatial rotation in a 3D
/// environment.
#[derive(Clone, Copy, Debug, PartialEq)]
pub struct Quat<T> {
    /// The X/first component of the quaternion.
    pub x: T,
    /// The Y/second component of the quaternion.
    pub y: T,
    /// The Z/third component of the quaternion.
    pub z: T,
    /// The W/fourth component of the quaternion.
    pub w: T,
}

impl<T: Scalar> Quat<T> {
    /// The squared length: the squares of the four components, summed from
    /// the left.
    pub open spec fn length_squared_spec(self) -> T {
        self.x.times_spec(self.x)
            .plus_spec(self.y.times_spec(self.y))
            .plus_spec(self.z.times_spec(self.z))
            .plus_spec(self.w.times_spec(self.w))
    }

    /// The Hamilton product of `right` and `self`, in this order.
    pub open spec fn product_spec(self, right: Quat<T>) -> Quat<T> {
        Quat {
            x: right.w.times_spec(self.x)
                .plus_spec(right.x.times_spec(self.w))
                .plus_spec(right.y.times_spec(self.z))
                .minus_spec(right.z.times_spec(self.y)),
            y: right.w.times_spec(self.y)
                .plus_spec(right.y.times_spec(self.w))
                .plus_spec(right.z.times_spec(self.x))
                .minus_spec(right.x.times_spec(self.z)),
            z: right.w.times_spec(self.z)
                .plus_spec(right.z.times_spec(self.w))
                .plus_spec(right.x.times_spec(self.y))
                .minus_spec(right.y.times_spec(self.x)),
            w: right.w.times_spec(self.w)
                .minus_spec(right.x.times_spec(self.x))
                .minus_spec(right.y.times_spec(self.y))
                .minus_spec(right.z.times_spec(self.z)),
        }
    }

    /// The sum of two quaternions, component by component.
    pub open spec fn sum_spec(self, right: Quat<T>) -> Quat<T> {
        Quat {
            x: self.x.plus_spec(right.x),
            y: self.y.plus_spec(right.y),
            z: self.z.plus_spec(right.z),
            w: self.w.plus_spec(right.w),
        }
    }

    /// The rotation matrix of the quaternion: the upper left 3x3 block holds
    /// the rotation, the rest is as in the identity matrix.
    pub open spec fn extract_matrix_spec(self) -> Mat4<T> {
        let x2 = self.x.plus_spec(self.x);
        let y2 = self.y.plus_spec(self.y);
        let z2 = self.z.plus_spec(self.z);
        let xx = self.x.times_spec(x2);
        let yx = self.y.times_spec(x2);
        let yy = self.y.times_spec(y2);
        let zx = self.z.times_spec(x2);
        let zy = self.z.times_spec(y2);
        let zz = self.z.times_spec(z2);
        let wx = self.w.times_spec(x2);
        let wy = self.w.times_spec(y2);
        let wz = self.w.times_spec(z2);
        Mat4 {
            rows: [
                Vec4 {
                    x: T::one_value().minus_spec(yy).minus_spec(zz),
                    y: yx.plus_spec(wz),
                    z: zx.minus_spec(wy),
                    w: T::zero_value(),
                },
                Vec4 {
                    x: yx.minus_spec(wz),
                    y: T::one_value().minus_spec(xx).minus_spec(zz),
                    z: zy.plus_spec(wx),
                    w: T::zero_value(),
                },
                Vec4 {
                    x: zx.plus_spec(wy),
                    y: zy.minus_spec(wx),
                    z: T::one_value().minus_spec(xx).minus_spec(yy),
                    w: T::zero_value(),
                },
                Vec4 {
                    x: T::zero_value(),
                    y: T::zero_value(),
                    z: T::zero_value(),
                    w: T::one_value(),
                },
            ],
        }
    }

    /// Constructs an identity quaternion: no rotation at all.
    pub fn identity() -> (q: Quat<T>)
        ensures
            q == (Quat {
                x: T::zero_value(),
                y: T::zero_value(),
                z: T::zero_value(),
                w: T::one_value(),
            }),
    {
        Quat { x: T::zero(), y: T::zero(), z: T::zero(), w: T::one() }
    }

    /// Calculates the squared length/magnitude/norm of a `Quat`.
    pub fn length_squared(&self) -> (d: T)
        ensures
            d == self.length_squared_spec(),
    {
        self.x.times(self.x)
            .plus(self.y.times(self.y))
            .plus(self.z.times(self.z))
            .plus(self.w.times(self.w))
    }

    /// Extracts the rotation matrix of the calling `Quat` object.
    pub fn extract_matrix(&self) -> (m: Mat4<T>)
        ensures
            m == self.extract_matrix_spec(),
    {
        let x2 = self.x.plus(self.x);
        let y2 = self.y.plus(self.y);
        let z2 = self.z.plus(self.z);
        let xx = self.x.times(x2);
        let yx = self.y.times(x2);
        let yy = self.y.times(y2);
        let zx = self.z.times(x2);
        let zy = self.z.times(y2);
        let zz = self.z.times(z2);
        let wx = self.w.times(x2);
        let wy = self.w.times(y2);
        let wz = self.w.times(z2);
        Mat4 {
            rows: [
                Vec4 {
                    x: T::one().minus(yy).minus(zz),
                    y: yx.plus(wz),
                    z: zx.minus(wy),
                    w: T::zero(),
                },
                Vec4 {
                    x: yx.minus(wz),
                    y: T::one().minus(xx).minus(zz),
                    z: zy.plus(wx),
                    w: T::zero(),
                },
                Vec4 {
                    x: zx.plus(wy),
                    y: zy.minus(wx),
                    z: T::one().minus(xx).minus(yy),
                    w: T::zero(),
                },
                Vec4 {
                    x: T::zero(),
                    y: T::zero(),
                    z: T::zero(),
                    w: T::one(),
                },
            ],
        }
    }

    /// Replaces the calling `Quat` by its product with `right`.
    pub fn mul_assign(&mut self, right: Quat<T>)
        ensures
            *final(self) == old(self).product_spec(right),
    {
        *self = *self * right;
    }

    /// Adds `right` to the calling `Quat`, component by component.
    pub fn add_assign(&mut self, right: Quat<T>)
        ensures
            *final(self) == old(self).sum_spec(right),
    {
        *self = *self + right;
    }
}

impl<T: Real> Quat<T> {
    /// The length of the quaternion: the square root of its squared length.
    pub open spec fn length_spec(self) -> T {
        self.length_squared_spec().sqrt_spec()
    }

    /// The quaternion with each component multiplied by the inverse of the
    /// length.
    pub open spec fn normalized_spec(self) -> Quat<T> {
        let f = T::one_value().over_spec(self.length_spec());
        Quat {
            x: self.x.times_spec(f),
            y: self.y.times_spec(f),
            z: self.z.times_spec(f),
            w: self.w.times_spec(f),
        }
    }

    /// Calculates the real length/magnitude/norm of a `Quat`.
    pub fn length(&self) -> (d: T)
        ensures
            d == self.length_spec(),
    {
        self.length_squared().sqrt()
    }

    /// Calculates and returns the unit quaternion representation of a
    /// `Quat`. A length of zero is not told apart: the components are then
    /// whatever the scalar's division by zero yields.
    pub fn normalized(&self) -> (q: Quat<T>)
        ensures
            q == self.normalized_spec(),
    {
        let f = T::one().over(self.length());
        Quat {
            x: self.x.times(f),
            y: self.y.times(f),
            z: self.z.times(f),
            w: self.w.times(f),
        }
    }

    /// The quaternion of the rotation by the angle `radians` around the unit
    /// vector of `axis`, with two taken as one plus one.
    pub open spec fn rotation_spec(radians: T, axis: Vec3<T>) -> Quat<T> {
        let a = axis.normalized_spec();
        let r = radians.over_spec(T::one_value().plus_spec(T::one_value()));
        let s = r.sin_spec();
        Quat {
            x: a.x.times_spec(s),
            y: a.y.times_spec(s),
            z: a.z.times_spec(s),
            w: r.cos_spec(),
        }
    }

    /// Constructs a rotation quaternion from an angle and an axis.
    pub fn rotation(radians: T, axis: Vec3<T>) -> (q: Quat<T>)
        ensures
            q == Quat::rotation_spec(radians, axis),
    {
        let a = axis.normalized();
        let r = radians.over(T::one().plus(T::one()));
        let s = r.sin();
        Quat { x: a.x.times(s), y: a.y.times(s), z: a.z.times(s), w: r.cos() }
    }

    /// Calculates and returns a `Quat` object representing the calling
    /// `Quat` object rotated by an angle around an axis.
    pub fn rotated(&self, radians: T, axis: Vec3<T>) -> (q: Quat<T>)
        ensures
            q == self.product_spec(Quat::rotation_spec(radians, axis)),
    {
        *self * Quat::rotation(radians, axis)
    }

    /// Applies a rotation to the calling `Quat` object.
    pub fn rotate(&mut self, radians: T, axis: Vec3<T>)
        ensures
            *final(self) == old(self).product_spec(Quat::rotation_spec(radians, axis)),
    {
        *self = *self * Quat::rotation(radians, axis);
    }

    /// Normalizes a `Quat` into its unit quaternion representation.
    pub fn normalize(&mut self)
        ensures
            *final(self) == old(self).normalized_spec(),
    {
        *self = self.normalized();
    }
}

impl<T: Scalar> Default for Quat<T> {
    /// Returns the identity quaternion.
    fn default() -> (q: Quat<T>)
        ensures
            q == (Quat {
                x: T::zero_value(),
                y: T::zero_value(),
                z: T::zero_value(),
                w: T::one_value(),
            }),
    {
        Quat { x: T::zero(), y: T::zero(), z: T::zero(), w: T::one() }
    }
}

impl<T: Scalar> From<T> for Quat<T> {
    fn from(value: T) -> (q: Quat<T>) {
        Quat { x: T::zero(), y: T::zero(), z: T::zero(), w: value }
    }
}

impl<T: Scalar> FromSpecImpl<T> for Quat<T> {
    open spec fn obeys_from_spec() -> bool {
        true
    }

    open spec fn from_spec(value: T) -> Quat<T> {
        Quat { x: T::zero_value(), y: T::zero_value(), z: T::zero_value(), w: value }
    }
}

impl<T> From<Vec4<T>> for Quat<T> {
    fn from(vec: Vec4<T>) -> (q: Quat<T>) {
        Quat { x: vec.x, y: vec.y, z: vec.z, w: vec.w }
    }
}

impl<T> FromSpecImpl<Vec4<T>> for Quat<T> {
    open spec fn obeys_from_spec() -> bool {
        true
    }

    open spec fn from_spec(vec: Vec4<T>) -> Quat<T> {
        Quat { x: vec.x, y: vec.y, z: vec.z, w: vec.w }
    }
}

impl<T> From<(T, T, T, T)> for Quat<T> {
    fn from(tuple: (T, T, T, T)) -> (q: Quat<T>) {
        Quat { x: tuple.0, y: tuple.1, z: tuple.2, w: tuple.3 }
    }
}

impl<T> FromSpecImpl<(T, T, T, T)> for Quat<T> {
    open spec fn obeys_from_spec() -> bool {
        true
    }

    open spec fn from_spec(tuple: (T, T, T, T)) -> Quat<T> {
        Quat { x: tuple.0, y: tuple.1, z: tuple.2, w: tuple.3 }
    }
}

impl<T: Copy> From<[T; 4]> for Quat<T> {
    fn from(slice: [T; 4]) -> (q: Quat<T>) {
        Quat { x: slice[0], y: slice[1], z: slice[2], w: slice[3] }
    }
}

impl<T: Copy> FromSpecImpl<[T; 4]> for Quat<T> {
    open spec fn obeys_from_spec() -> bool {
        true
    }

    open spec fn from_spec(slice: [T; 4]) -> Quat<T> {
        Quat { x: slice[0], y: slice[1], z: slice[2], w: slice[3] }
    }
}

impl<T: Scalar> From<Quat<T>> for Mat4<T> {
    fn from(quat: Quat<T>) -> (m: Mat4<T>) {
        quat.extract_matrix()
    }
}

impl<T: Scalar> FromSpecImpl<Quat<T>> for Mat4<T> {
    open spec fn obeys_from_spec() -> bool {
        true
    }

    open spec fn from_spec(quat: Quat<T>) -> Mat4<T> {
        quat.extract_matrix_spec()
    }
}

impl<T: Scalar> Mul<Quat<T>> for Quat<T> {
    type Output = Quat<T>;

    /// The product of two quaternions.
    fn mul(self, right: Quat<T>) -> (q: Quat<T>) {
        Quat {
            x: right.w.times(self.x)
                .plus(right.x.times(self.w))
                .plus(right.y.times(self.z))
                .minus(right.z.times(self.y)),
            y: right.w.times(self.y)
                .plus(right.y.times(self.w))
                .plus(right.z.times(self.x))
                .minus(right.x.times(self.z)),
            z: right.w.times(self.z)
                .plus(right.z.times(self.w))
                .plus(right.x.times(self.y))
                .minus(right.y.times(self.x)),
            w: right.w.times(self.w)
                .minus(right.x.times(self.x))
                .minus(right.y.times(self.y))
                .minus(right.z.times(self.z)),
        }
    }
}

impl<T: Scalar> MulSpecImpl<Quat<T>> for Quat<T> {
    open spec fn obeys_mul_spec() -> bool {
        true
    }

    open spec fn mul_req(self, right: Quat<T>) -> bool {
        true
    }

    open spec fn mul_spec(self, right: Quat<T>) -> Quat<T> {
        self.product_spec(right)
    }
}

impl<T: Scalar> Add<Quat<T>> for Quat<T> {
    type Output = Quat<T>;

    /// The sum of two quaternions, component by component.
    fn add(self, right: Quat<T>) -> (q: Quat<T>) {
        Quat {
            x: self.x.plus(right.x),
            y: self.y.plus(right.y),
            z: self.z.plus(right.z),
            w: self.w.plus(right.w),
        }
    }
}

impl<T: Scalar> AddSpecImpl<Quat<T>> for Quat<T> {
    open spec fn obeys_add_spec() -> bool {
        true
    }

    open spec fn add_req(self, right: Quat<T>) -> bool {
        true
    }

    open spec fn add_spec(self, right: Quat<T>) -> Quat<T> {
        self.sum_spec(right)
    }
}

} // verus!
