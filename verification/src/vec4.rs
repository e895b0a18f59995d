use crate::decomposition::{Dimensional, Permute, Vector, Zero};
use crate::scalar::{Real, Scalar};
use crate::vec2::Vec2;
use crate::vec3::Vec3;
use std::ops::{Add, Index, Mul, Neg, Sub};
use vstd::prelude::*;
use vstd::std_specs::convert::FromSpecImpl;
use vstd::std_specs::ops::{AddSpecImpl, MulSpecImpl, NegSpecImpl, SubSpecImpl};

verus! {

/// A four-component Euclidean vector.
#[derive(Clone, Copy, Debug, PartialEq)]
pub struct Vec4<T> {
    /// The X/first component of the vector.
    pub x: T,
    /// The Y/second component of the vector.
    pub y: T,
    /// The Z/third component of the vector.
    pub z: T,
    /// The W/fourth component of the vector.
    pub w: T,
}

impl<T> View for Vec4<T> {
    type V = Seq<T>;

    open spec fn view(&self) -> Seq<T> {
        seq![self.x, self.y, self.z, self.w]
    }
}

impl<T: Scalar> Vec4<T> {
    /// The dot product of `self` and `right`: the products of the
    /// components, summed from the left.
    pub open spec fn dot_spec(self, right: Vec4<T>) -> T {
        self.x.times_spec(right.x)
            .plus_spec(self.y.times_spec(right.y))
            .plus_spec(self.z.times_spec(right.z))
            .plus_spec(self.w.times_spec(right.w))
    }

    /// Constructs a new `Vec4<T>` from four initial values.
    pub fn new(x: T, y: T, z: T, w: T) -> (v: Vec4<T>)
        ensures
            v == (Vec4 { x, y, z, w }),
    {
        Vec4 { x, y, z, w }
    }

    /// Calculates the dot/scalar product of two `Vec4<T>`s, the calling
    /// object on the left.
    pub fn dot(&self, right: Vec4<T>) -> (d: T)
        ensures
            d == self.dot_spec(right),
    {
        self.x.times(right.x)
            .plus(self.y.times(right.y))
            .plus(self.z.times(right.z))
            .plus(self.w.times(right.w))
    }

    /// Fills all components of the calling `Vec4<T>` with the provided value.
    pub fn fill(&mut self, value: T)
        ensures
            *final(self) == (Vec4 { x: value, y: value, z: value, w: value }),
    {
        self.x = value;
        self.y = value;
        self.z = value;
        self.w = value;
    }

    /// Calculates the squared length/magnitude/norm of a `Vec4<T>`.
    pub fn length_squared(&self) -> (d: T)
        ensures
            d == self.dot_spec(*self),
    {
        self.x.times(self.x)
            .plus(self.y.times(self.y))
            .plus(self.z.times(self.z))
            .plus(self.w.times(self.w))
    }
}

impl<T: Real> Vec4<T> {
    /// The length of the vector: the square root of its squared length.
    pub open spec fn length_spec(self) -> T {
        self.dot_spec(self).sqrt_spec()
    }

    /// The vector with each component divided by the length, or by one
    /// where the length equals zero.
    pub open spec fn normalized_spec(self) -> Vec4<T> {
        let d = if self.length_spec().equals_spec(T::zero_value()) {
            T::one_value()
        } else {
            self.length_spec()
        };
        Vec4 {
            x: self.x.over_spec(d),
            y: self.y.over_spec(d),
            z: self.z.over_spec(d),
            w: self.w.over_spec(d),
        }
    }

    /// Calculates the real length/magnitude/norm of a `Vec4<T>`.
    pub fn length(&self) -> (d: T)
        ensures
            d == self.length_spec(),
    {
        self.length_squared().sqrt()
    }

    /// Calculates and returns the unit vector representation of a
    /// `Vec4<T>`. A vector of length zero is returned as it is divided by
    /// one.
    pub fn normalized(&self) -> (v: Vec4<T>)
        ensures
            v == self.normalized_spec(),
    {
        let mut length = self.length();

        if length.equals(T::zero()) {
            length = T::one();
        }
        Vec4 {
            x: self.x.over(length),
            y: self.y.over(length),
            z: self.z.over(length),
            w: self.w.over(length),
        }
    }

    /// Normalizes a `Vec4<T>` into its unit vector representation.
    pub fn normalize(&mut self)
        ensures
            *final(self) == old(self).normalized_spec(),
    {
        *self = self.normalized();
    }
}

impl<T: Scalar> Vec4<T> {
    /// Adds `right` to the calling `Vec4<T>`, component by component.
    pub fn add_assign(&mut self, right: Vec4<T>)
        ensures
            *final(self) == (Vec4 {
                x: old(self).x.plus_spec(right.x),
                y: old(self).y.plus_spec(right.y),
                z: old(self).z.plus_spec(right.z),
                w: old(self).w.plus_spec(right.w),
            }),
    {
        self.x = self.x.plus(right.x);
        self.y = self.y.plus(right.y);
        self.z = self.z.plus(right.z);
        self.w = self.w.plus(right.w);
    }

    /// Subtracts `right` from the calling `Vec4<T>`, component by component.
    pub fn sub_assign(&mut self, right: Vec4<T>)
        ensures
            *final(self) == (Vec4 {
                x: old(self).x.minus_spec(right.x),
                y: old(self).y.minus_spec(right.y),
                z: old(self).z.minus_spec(right.z),
                w: old(self).w.minus_spec(right.w),
            }),
    {
        self.x = self.x.minus(right.x);
        self.y = self.y.minus(right.y);
        self.z = self.z.minus(right.z);
        self.w = self.w.minus(right.w);
    }

    /// Multiplies each component of the calling `Vec4<T>` by `right`.
    pub fn mul_assign(&mut self, right: T)
        ensures
            *final(self) == (Vec4 {
                x: old(self).x.times_spec(right),
                y: old(self).y.times_spec(right),
                z: old(self).z.times_spec(right),
                w: old(self).w.times_spec(right),
            }),
    {
        self.x = self.x.times(right);
        self.y = self.y.times(right);
        self.z = self.z.times(right);
        self.w = self.w.times(right);
    }
}

impl<T: Scalar> Default for Vec4<T> {
    /// Returns the vector filled with zeros.
    fn default() -> (v: Vec4<T>)
        ensures
            v == (Vec4 {
                x: T::zero_value(),
                y: T::zero_value(),
                z: T::zero_value(),
                w: T::zero_value(),
            }),
    {
        Vec4 { x: T::zero(), y: T::zero(), z: T::zero(), w: T::zero() }
    }
}

impl<T> From<(T, T, T, T)> for Vec4<T> {
    fn from(tuple: (T, T, T, T)) -> (v: Vec4<T>) {
        Vec4 { x: tuple.0, y: tuple.1, z: tuple.2, w: tuple.3 }
    }
}

impl<T> FromSpecImpl<(T, T, T, T)> for Vec4<T> {
    open spec fn obeys_from_spec() -> bool {
        true
    }

    open spec fn from_spec(tuple: (T, T, T, T)) -> Vec4<T> {
        Vec4 { x: tuple.0, y: tuple.1, z: tuple.2, w: tuple.3 }
    }
}

impl<T: Copy> From<[T; 4]> for Vec4<T> {
    fn from(slice: [T; 4]) -> (v: Vec4<T>) {
        Vec4 { x: slice[0], y: slice[1], z: slice[2], w: slice[3] }
    }
}

impl<T: Copy> FromSpecImpl<[T; 4]> for Vec4<T> {
    open spec fn obeys_from_spec() -> bool {
        true
    }

    open spec fn from_spec(slice: [T; 4]) -> Vec4<T> {
        Vec4 { x: slice[0], y: slice[1], z: slice[2], w: slice[3] }
    }
}

impl<T: Scalar> From<Vec2<T>> for Vec4<T> {
    fn from(vec: Vec2<T>) -> (v: Vec4<T>) {
        Vec4 { x: vec.x, y: vec.y, z: T::zero(), w: T::zero() }
    }
}

impl<T: Scalar> FromSpecImpl<Vec2<T>> for Vec4<T> {
    open spec fn obeys_from_spec() -> bool {
        true
    }

    open spec fn from_spec(vec: Vec2<T>) -> Vec4<T> {
        Vec4 { x: vec.x, y: vec.y, z: T::zero_value(), w: T::zero_value() }
    }
}

impl<T: Scalar> From<Vec3<T>> for Vec4<T> {
    fn from(vec: Vec3<T>) -> (v: Vec4<T>) {
        Vec4 { x: vec.x, y: vec.y, z: vec.z, w: T::zero() }
    }
}

impl<T: Scalar> FromSpecImpl<Vec3<T>> for Vec4<T> {
    open spec fn obeys_from_spec() -> bool {
        true
    }

    open spec fn from_spec(vec: Vec3<T>) -> Vec4<T> {
        Vec4 { x: vec.x, y: vec.y, z: vec.z, w: T::zero_value() }
    }
}

impl<T: Copy> From<T> for Vec4<T> {
    fn from(value: T) -> (v: Vec4<T>) {
        Vec4 { x: value, y: value, z: value, w: value }
    }
}

impl<T: Copy> FromSpecImpl<T> for Vec4<T> {
    open spec fn obeys_from_spec() -> bool {
        true
    }

    open spec fn from_spec(value: T) -> Vec4<T> {
        Vec4 { x: value, y: value, z: value, w: value }
    }
}

impl<T: Scalar> Add for Vec4<T> {
    type Output = Vec4<T>;

    /// The sum of two vectors, component by component.
    fn add(self, right: Vec4<T>) -> (v: Vec4<T>) {
        Vec4 {
            x: self.x.plus(right.x),
            y: self.y.plus(right.y),
            z: self.z.plus(right.z),
            w: self.w.plus(right.w),
        }
    }
}

impl<T: Scalar> AddSpecImpl for Vec4<T> {
    open spec fn obeys_add_spec() -> bool {
        true
    }

    open spec fn add_req(self, right: Vec4<T>) -> bool {
        true
    }

    open spec fn add_spec(self, right: Vec4<T>) -> Vec4<T> {
        Vec4 {
            x: self.x.plus_spec(right.x),
            y: self.y.plus_spec(right.y),
            z: self.z.plus_spec(right.z),
            w: self.w.plus_spec(right.w),
        }
    }
}

impl<T: Scalar> Sub for Vec4<T> {
    type Output = Vec4<T>;

    /// The difference of two vectors, component by component.
    fn sub(self, right: Vec4<T>) -> (v: Vec4<T>) {
        Vec4 {
            x: self.x.minus(right.x),
            y: self.y.minus(right.y),
            z: self.z.minus(right.z),
            w: self.w.minus(right.w),
        }
    }
}

impl<T: Scalar> SubSpecImpl for Vec4<T> {
    open spec fn obeys_sub_spec() -> bool {
        true
    }

    open spec fn sub_req(self, right: Vec4<T>) -> bool {
        true
    }

    open spec fn sub_spec(self, right: Vec4<T>) -> Vec4<T> {
        Vec4 {
            x: self.x.minus_spec(right.x),
            y: self.y.minus_spec(right.y),
            z: self.z.minus_spec(right.z),
            w: self.w.minus_spec(right.w),
        }
    }
}

impl<T: Scalar> Mul<T> for Vec4<T> {
    type Output = Vec4<T>;

    /// The vector with each component multiplied by `right`.
    fn mul(self, right: T) -> (v: Vec4<T>) {
        Vec4 {
            x: self.x.times(right),
            y: self.y.times(right),
            z: self.z.times(right),
            w: self.w.times(right),
        }
    }
}

impl<T: Scalar> MulSpecImpl<T> for Vec4<T> {
    open spec fn obeys_mul_spec() -> bool {
        true
    }

    open spec fn mul_req(self, right: T) -> bool {
        true
    }

    open spec fn mul_spec(self, right: T) -> Vec4<T> {
        Vec4 {
            x: self.x.times_spec(right),
            y: self.y.times_spec(right),
            z: self.z.times_spec(right),
            w: self.w.times_spec(right),
        }
    }
}

impl<T: Scalar> Neg for Vec4<T> {
    type Output = Vec4<T>;

    /// The vector with each component negated.
    fn neg(self) -> (v: Vec4<T>) {
        Vec4 {
            x: self.x.negated(),
            y: self.y.negated(),
            z: self.z.negated(),
            w: self.w.negated(),
        }
    }
}

impl<T: Scalar> NegSpecImpl for Vec4<T> {
    open spec fn obeys_neg_spec() -> bool {
        true
    }

    open spec fn neg_req(self) -> bool {
        true
    }

    open spec fn neg_spec(self) -> Vec4<T> {
        Vec4 {
            x: self.x.negated_spec(),
            y: self.y.negated_spec(),
            z: self.z.negated_spec(),
            w: self.w.negated_spec(),
        }
    }
}

impl<T> Index<usize> for Vec4<T> {
    type Output = T;

    /// The component at `index`, counted from zero.
    fn index(&self, index: usize) -> (v: &T)
        ensures
            *v == self@[index as int],
    {
        if index == 0 {
            &self.x
        } else if index == 1 {
            &self.y
        } else if index == 2 {
            &self.z
        } else {
            &self.w
        }
    }
}

impl<T> vstd::std_specs::core::IndexSpecImpl<usize> for Vec4<T> {
    open spec fn index_req(&self, index: &usize) -> bool {
        *index < 4
    }
}

impl<T> Dimensional for Vec4<T> {
    open spec fn dimension_spec() -> usize {
        4
    }

    fn dimension() -> (n: usize) {
        4
    }
}

impl<T: Scalar> Zero for Vec4<T> {
    open spec fn zero_spec() -> Self {
        Vec4 { x: T::zero_value(), y: T::zero_value(), z: T::zero_value(), w: T::zero_value() }
    }

    fn zero() -> (z: Self) {
        Vec4 { x: T::zero(), y: T::zero(), z: T::zero(), w: T::zero() }
    }
}

impl<T: Scalar> Vector<T> for Vec4<T> {
    proof fn shape(&self) {
    }

    fn get(&self, i: usize) -> (v: T) {
        if i == 0 {
            self.x
        } else if i == 1 {
            self.y
        } else if i == 2 {
            self.z
        } else {
            self.w
        }
    }

    fn set(&mut self, i: usize, v: T) {
        if i == 0 {
            self.x = v;
        } else if i == 1 {
            self.y = v;
        } else if i == 2 {
            self.z = v;
        } else {
            self.w = v;
        }
        assert(self@ =~= old(self)@.update(i as int, v));
    }
}

impl<T: Scalar> Permute<T> for Vec4<T> {
}

} // verus!
