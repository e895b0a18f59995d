use crate::decomposition::{Dimensional, Permute, Vector, Zero};
use crate::scalar::{Real, Scalar};
use crate::vec3::Vec3;
use crate::vec4::Vec4;
use std::ops::{Add, Index, Mul, Neg, Sub};
use vstd::prelude::*;
use vstd::std_specs::convert::FromSpecImpl;
use vstd::std_specs::ops::{AddSpecImpl, MulSpecImpl, NegSpecImpl, SubSpecImpl};

verus! {

/// A two-component Euclidean vector.
#[derive(Clone, Copy, Debug, PartialEq)]
pub struct Vec2<T> {
    /// The X/first component of the vector.
    pub x: T,
    /// The Y/second component of the vector.
    pub y: T,
}

impl<T> View for Vec2<T> {
    type V = Seq<T>;

    open spec fn view(&self) -> Seq<T> {
        seq![self.x, self.y]
    }
}

impl<T: Scalar> Vec2<T> {
    /// The dot product of `self` and `right`: the products of the
    /// components, summed from the left.
    pub open spec fn dot_spec(self, right: Vec2<T>) -> T {
        self.x.times_spec(right.x).plus_spec(self.y.times_spec(right.y))
    }

    /// Constructs a new `Vec2<T>` from two initial values.
    pub fn new(x: T, y: T) -> (v: Vec2<T>)
        ensures
            v == (Vec2 { x, y }),
    {
        Vec2 { x, y }
    }

    /// Calculates the dot/scalar product of two `Vec2<T>`s, the calling
    /// object on the left.
    pub fn dot(&self, right: Vec2<T>) -> (d: T)
        ensures
            d == self.dot_spec(right),
    {
        self.x.times(right.x).plus(self.y.times(right.y))
    }

    /// Fills all components of the calling `Vec2<T>` with the provided value.
    pub fn fill(&mut self, value: T)
        ensures
            *final(self) == (Vec2 { x: value, y: value }),
    {
        self.x = value;
        self.y = value;
    }

    /// Calculates the squared length/magnitude/norm of a `Vec2<T>`.
    pub fn length_squared(&self) -> (d: T)
        ensures
            d == self.dot_spec(*self),
    {
        self.x.times(self.x).plus(self.y.times(self.y))
    }
}

impl<T: Real> Vec2<T> {
    /// The length of the vector: the square root of its squared length.
    pub open spec fn length_spec(self) -> T {
        self.dot_spec(self).sqrt_spec()
    }

    /// The vector with each component divided by the length, or by one
    /// where the length equals zero.
    pub open spec fn normalized_spec(self) -> Vec2<T> {
        let d = if self.length_spec().equals_spec(T::zero_value()) {
            T::one_value()
        } else {
            self.length_spec()
        };
        Vec2 { x: self.x.over_spec(d), y: self.y.over_spec(d) }
    }

    /// Calculates the real length/magnitude/norm of a `Vec2<T>`.
    pub fn length(&self) -> (d: T)
        ensures
            d == self.length_spec(),
    {
        self.length_squared().sqrt()
    }

    /// Calculates and returns the unit vector representation of a
    /// `Vec2<T>`. A vector of length zero is returned as it is divided by
    /// one.
    pub fn normalized(&self) -> (v: Vec2<T>)
        ensures
            v == self.normalized_spec(),
    {
        let mut length = self.length();

        if length.equals(T::zero()) {
            length = T::one();
        }
        Vec2 { x: self.x.over(length), y: self.y.over(length) }
    }

    /// Normalizes a `Vec2<T>` into its unit vector representation.
    pub fn normalize(&mut self)
        ensures
            *final(self) == old(self).normalized_spec(),
    {
        *self = self.normalized();
    }
}

impl<T: Scalar> Vec2<T> {
    /// Adds `right` to the calling `Vec2<T>`, component by component.
    pub fn add_assign(&mut self, right: Vec2<T>)
        ensures
            *final(self) == (Vec2 {
                x: old(self).x.plus_spec(right.x),
                y: old(self).y.plus_spec(right.y),
            }),
    {
        self.x = self.x.plus(right.x);
        self.y = self.y.plus(right.y);
    }

    /// Subtracts `right` from the calling `Vec2<T>`, component by component.
    pub fn sub_assign(&mut self, right: Vec2<T>)
        ensures
            *final(self) == (Vec2 {
                x: old(self).x.minus_spec(right.x),
                y: old(self).y.minus_spec(right.y),
            }),
    {
        self.x = self.x.minus(right.x);
        self.y = self.y.minus(right.y);
    }

    /// Multiplies each component of the calling `Vec2<T>` by `right`.
    pub fn mul_assign(&mut self, right: T)
        ensures
            *final(self) == (Vec2 {
                x: old(self).x.times_spec(right),
                y: old(self).y.times_spec(right),
            }),
    {
        self.x = self.x.times(right);
        self.y = self.y.times(right);
    }
}

impl<T: Scalar> Default for Vec2<T> {
    /// Returns the vector filled with zeros.
    fn default() -> (v: Vec2<T>)
        ensures
            v == (Vec2 { x: T::zero_value(), y: T::zero_value() }),
    {
        Vec2 { x: T::zero(), y: T::zero() }
    }
}

impl<T> From<(T, T)> for Vec2<T> {
    fn from(tuple: (T, T)) -> (v: Vec2<T>) {
        Vec2 { x: tuple.0, y: tuple.1 }
    }
}

impl<T> FromSpecImpl<(T, T)> for Vec2<T> {
    open spec fn obeys_from_spec() -> bool {
        true
    }

    open spec fn from_spec(tuple: (T, T)) -> Vec2<T> {
        Vec2 { x: tuple.0, y: tuple.1 }
    }
}

impl<T: Copy> From<[T; 2]> for Vec2<T> {
    fn from(slice: [T; 2]) -> (v: Vec2<T>) {
        Vec2 { x: slice[0], y: slice[1] }
    }
}

impl<T: Copy> FromSpecImpl<[T; 2]> for Vec2<T> {
    open spec fn obeys_from_spec() -> bool {
        true
    }

    open spec fn from_spec(slice: [T; 2]) -> Vec2<T> {
        Vec2 { x: slice[0], y: slice[1] }
    }
}

impl<T> From<Vec3<T>> for Vec2<T> {
    fn from(vec: Vec3<T>) -> (v: Vec2<T>) {
        Vec2 { x: vec.x, y: vec.y }
    }
}

impl<T> FromSpecImpl<Vec3<T>> for Vec2<T> {
    open spec fn obeys_from_spec() -> bool {
        true
    }

    open spec fn from_spec(vec: Vec3<T>) -> Vec2<T> {
        Vec2 { x: vec.x, y: vec.y }
    }
}

impl<T> From<Vec4<T>> for Vec2<T> {
    fn from(vec: Vec4<T>) -> (v: Vec2<T>) {
        Vec2 { x: vec.x, y: vec.y }
    }
}

impl<T> FromSpecImpl<Vec4<T>> for Vec2<T> {
    open spec fn obeys_from_spec() -> bool {
        true
    }

    open spec fn from_spec(vec: Vec4<T>) -> Vec2<T> {
        Vec2 { x: vec.x, y: vec.y }
    }
}

impl<T: Copy> From<T> for Vec2<T> {
    fn from(value: T) -> (v: Vec2<T>) {
        Vec2 { x: value, y: value }
    }
}

impl<T: Copy> FromSpecImpl<T> for Vec2<T> {
    open spec fn obeys_from_spec() -> bool {
        true
    }

    open spec fn from_spec(value: T) -> Vec2<T> {
        Vec2 { x: value, y: value }
    }
}

impl<T: Scalar> Add for Vec2<T> {
    type Output = Vec2<T>;

    /// The sum of two vectors, component by component.
    fn add(self, right: Vec2<T>) -> (v: Vec2<T>) {
        Vec2 { x: self.x.plus(right.x), y: self.y.plus(right.y) }
    }
}

impl<T: Scalar> AddSpecImpl for Vec2<T> {
    open spec fn obeys_add_spec() -> bool {
        true
    }

    open spec fn add_req(self, right: Vec2<T>) -> bool {
        true
    }

    open spec fn add_spec(self, right: Vec2<T>) -> Vec2<T> {
        Vec2 { x: self.x.plus_spec(right.x), y: self.y.plus_spec(right.y) }
    }
}

impl<T: Scalar> Sub for Vec2<T> {
    type Output = Vec2<T>;

    /// The difference of two vectors, component by component.
    fn sub(self, right: Vec2<T>) -> (v: Vec2<T>) {
        Vec2 { x: self.x.minus(right.x), y: self.y.minus(right.y) }
    }
}

impl<T: Scalar> SubSpecImpl for Vec2<T> {
    open spec fn obeys_sub_spec() -> bool {
        true
    }

    open spec fn sub_req(self, right: Vec2<T>) -> bool {
        true
    }

    open spec fn sub_spec(self, right: Vec2<T>) -> Vec2<T> {
        Vec2 { x: self.x.minus_spec(right.x), y: self.y.minus_spec(right.y) }
    }
}

impl<T: Scalar> Mul<T> for Vec2<T> {
    type Output = Vec2<T>;

    /// The vector with each component multiplied by `right`.
    fn mul(self, right: T) -> (v: Vec2<T>) {
        Vec2 { x: self.x.times(right), y: self.y.times(right) }
    }
}

impl<T: Scalar> MulSpecImpl<T> for Vec2<T> {
    open spec fn obeys_mul_spec() -> bool {
        true
    }

    open spec fn mul_req(self, right: T) -> bool {
        true
    }

    open spec fn mul_spec(self, right: T) -> Vec2<T> {
        Vec2 { x: self.x.times_spec(right), y: self.y.times_spec(right) }
    }
}

impl<T: Scalar> Neg for Vec2<T> {
    type Output = Vec2<T>;

    /// The vector with each component negated.
    fn neg(self) -> (v: Vec2<T>) {
        Vec2 { x: self.x.negated(), y: self.y.negated() }
    }
}

impl<T: Scalar> NegSpecImpl for Vec2<T> {
    open spec fn obeys_neg_spec() -> bool {
        true
    }

    open spec fn neg_req(self) -> bool {
        true
    }

    open spec fn neg_spec(self) -> Vec2<T> {
        Vec2 { x: self.x.negated_spec(), y: self.y.negated_spec() }
    }
}

impl<T> Index<usize> for Vec2<T> {
    type Output = T;

    /// The component at `index`, counted from zero.
    fn index(&self, index: usize) -> (v: &T)
        ensures
            *v == self@[index as int],
    {
        if index == 0 {
            &self.x
        } else {
            &self.y
        }
    }
}

impl<T> vstd::std_specs::core::IndexSpecImpl<usize> for Vec2<T> {
    open spec fn index_req(&self, index: &usize) -> bool {
        *index < 2
    }
}

impl<T> Dimensional for Vec2<T> {
    open spec fn dimension_spec() -> usize {
        2
    }

    fn dimension() -> (n: usize) {
        2
    }
}

impl<T: Scalar> Zero for Vec2<T> {
    open spec fn zero_spec() -> Self {
        Vec2 { x: T::zero_value(), y: T::zero_value() }
    }

    fn zero() -> (z: Self) {
        Vec2 { x: T::zero(), y: T::zero() }
    }
}

impl<T: Scalar> Vector<T> for Vec2<T> {
    proof fn shape(&self) {
    }

    fn get(&self, i: usize) -> (v: T) {
        if i == 0 {
            self.x
        } else {
            self.y
        }
    }

    fn set(&mut self, i: usize, v: T) {
        if i == 0 {
            self.x = v;
        } else {
            self.y = v;
        }
        assert(self@ =~= old(self)@.update(i as int, v));
    }
}

impl<T: Scalar> Permute<T> for Vec2<T> {
}

} // verus!
