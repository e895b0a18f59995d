use crate::decomposition::{Dimensional, Permute, Vector, Zero};
use crate::scalar::{Real, Scalar};
use crate::vec2::Vec2;
use crate::vec4::Vec4;
use std::ops::{Add, Index, Mul, Neg, Sub};
use vstd::prelude::*;
use vstd::std_specs::convert::FromSpecImpl;
use vstd::std_specs::ops::{AddSpecImpl, MulSpecImpl, NegSpecImpl, SubSpecImpl};

verus! {

/// A three-component Euclidean vector.
#[derive(Clone, Copy, Debug, PartialEq)]
pub struct Vec3<T> {
    /// The X/first component of the vector.
    pub x: T,
    /// The Y/second component of the vector.
    pub y: T,
    /// The Z/third component of the vector.
    pub z: T,
}

impl<T> View for Vec3<T> {
    type V = Seq<T>;

    open spec fn view(&self) -> Seq<T> {
        seq![self.x, self.y, self.z]
    }
}

/// `a` where it is not below zero, else its negation.
pub open spec fn distance_from_zero<T: Scalar>(a: T) -> T {
    if a.less_than_spec(T::zero_value()) {
        a.negated_spec()
    } else {
        a
    }
}

impl<T: Scalar> Vec3<T> {
    /// The dot product of `self` and `right`: the products of the
    /// components, summed from the left.
    pub open spec fn dot_spec(self, right: Vec3<T>) -> T {
        self.x.times_spec(right.x)
            .plus_spec(self.y.times_spec(right.y))
            .plus_spec(self.z.times_spec(right.z))
    }

    /// The cross product of `self` and `right`.
    pub open spec fn cross_spec(self, right: Vec3<T>) -> Vec3<T> {
        Vec3 {
            x: self.y.times_spec(right.z).minus_spec(self.z.times_spec(right.y)),
            y: self.z.times_spec(right.x).minus_spec(self.x.times_spec(right.z)),
            z: self.x.times_spec(right.y).minus_spec(self.y.times_spec(right.x)),
        }
    }

    /// The sum of the distances between the components of `self` and of
    /// `right`, summed from the left.
    pub open spec fn manhattan_distance_spec(self, right: Vec3<T>) -> T {
        distance_from_zero(self.x.minus_spec(right.x)).plus_spec(
            distance_from_zero(self.y.minus_spec(right.y)),
        ).plus_spec(distance_from_zero(self.z.minus_spec(right.z)))
    }

    /// Constructs a new `Vec3<T>` from three initial values.
    pub fn new(x: T, y: T, z: T) -> (v: Vec3<T>)
        ensures
            v == (Vec3 { x, y, z }),
    {
        Vec3 { x, y, z }
    }

    /// Calculates the dot/scalar product of two `Vec3<T>`s, the calling
    /// object on the left.
    pub fn dot(&self, right: Vec3<T>) -> (d: T)
        ensures
            d == self.dot_spec(right),
    {
        self.x.times(right.x).plus(self.y.times(right.y)).plus(self.z.times(right.z))
    }

    /// Calculates the cross/vector product of two `Vec3<T>`s, the calling
    /// object on the left.
    pub fn cross(&self, right: Vec3<T>) -> (c: Vec3<T>)
        ensures
            c == self.cross_spec(right),
    {
        Vec3 {
            x: self.y.times(right.z).minus(self.z.times(right.y)),
            y: self.z.times(right.x).minus(self.x.times(right.z)),
            z: self.x.times(right.y).minus(self.y.times(right.x)),
        }
    }

    /// Calculates the manhattan distance between the two points that two
    /// `Vec3<T>` objects point to.
    pub fn manhattan_distance(&self, right: Vec3<T>) -> (d: T)
        ensures
            d == self.manhattan_distance_spec(right),
    {
        let mut a = self.x.minus(right.x);
        let mut b = self.y.minus(right.y);
        let mut c = self.z.minus(right.z);

        if a.less_than(T::zero()) {
            a = a.negated();
        }
        if b.less_than(T::zero()) {
            b = b.negated();
        }
        if c.less_than(T::zero()) {
            c = c.negated();
        }
        a.plus(b).plus(c)
    }

    /// Fills all components of the calling `Vec3<T>` with the provided value.
    pub fn fill(&mut self, value: T)
        ensures
            *final(self) == (Vec3 { x: value, y: value, z: value }),
    {
        self.x = value;
        self.y = value;
        self.z = value;
    }

    /// Calculates the squared length/magnitude/norm of a `Vec3<T>`.
    pub fn length_squared(&self) -> (d: T)
        ensures
            d == self.dot_spec(*self),
    {
        self.x.times(self.x).plus(self.y.times(self.y)).plus(self.z.times(self.z))
    }
}

impl<T: Real> Vec3<T> {
    /// The length of the vector: the square root of its squared length.
    pub open spec fn length_spec(self) -> T {
        self.dot_spec(self).sqrt_spec()
    }

    /// The vector with each component divided by the length, or by one
    /// where the length equals zero.
    pub open spec fn normalized_spec(self) -> Vec3<T> {
        let d = if self.length_spec().equals_spec(T::zero_value()) {
            T::one_value()
        } else {
            self.length_spec()
        };
        Vec3 { x: self.x.over_spec(d), y: self.y.over_spec(d), z: self.z.over_spec(d) }
    }

    /// Calculates the real length/magnitude/norm of a `Vec3<T>`.
    pub fn length(&self) -> (d: T)
        ensures
            d == self.length_spec(),
    {
        self.length_squared().sqrt()
    }

    /// Calculates and returns the unit vector representation of a
    /// `Vec3<T>`. A vector of length zero is returned as it is divided by
    /// one.
    pub fn normalized(&self) -> (v: Vec3<T>)
        ensures
            v == self.normalized_spec(),
    {
        let mut length = self.length();

        if length.equals(T::zero()) {
            length = T::one();
        }
        Vec3 { x: self.x.over(length), y: self.y.over(length), z: self.z.over(length) }
    }

    /// Normalizes a `Vec3<T>` into its unit vector representation.
    pub fn normalize(&mut self)
        ensures
            *final(self) == old(self).normalized_spec(),
    {
        *self = self.normalized();
    }
}

impl<T: Scalar> Vec3<T> {
    /// Adds `right` to the calling `Vec3<T>`, component by component.
    pub fn add_assign(&mut self, right: Vec3<T>)
        ensures
            *final(self) == (Vec3 {
                x: old(self).x.plus_spec(right.x),
                y: old(self).y.plus_spec(right.y),
                z: old(self).z.plus_spec(right.z),
            }),
    {
        self.x = self.x.plus(right.x);
        self.y = self.y.plus(right.y);
        self.z = self.z.plus(right.z);
    }

    /// Subtracts `right` from the calling `Vec3<T>`, component by component.
    pub fn sub_assign(&mut self, right: Vec3<T>)
        ensures
            *final(self) == (Vec3 {
                x: old(self).x.minus_spec(right.x),
                y: old(self).y.minus_spec(right.y),
                z: old(self).z.minus_spec(right.z),
            }),
    {
        self.x = self.x.minus(right.x);
        self.y = self.y.minus(right.y);
        self.z = self.z.minus(right.z);
    }

    /// Multiplies each component of the calling `Vec3<T>` by `right`.
    pub fn mul_assign(&mut self, right: T)
        ensures
            *final(self) == (Vec3 {
                x: old(self).x.times_spec(right),
                y: old(self).y.times_spec(right),
                z: old(self).z.times_spec(right),
            }),
    {
        self.x = self.x.times(right);
        self.y = self.y.times(right);
        self.z = self.z.times(right);
    }
}

impl<T: Scalar> Default for Vec3<T> {
    /// Returns the vector filled with zeros.
    fn default() -> (v: Vec3<T>)
        ensures
            v == (Vec3 { x: T::zero_value(), y: T::zero_value(), z: T::zero_value() }),
    {
        Vec3 { x: T::zero(), y: T::zero(), z: T::zero() }
    }
}

impl<T> From<(T, T, T)> for Vec3<T> {
    fn from(tuple: (T, T, T)) -> (v: Vec3<T>) {
        Vec3 { x: tuple.0, y: tuple.1, z: tuple.2 }
    }
}

impl<T> FromSpecImpl<(T, T, T)> for Vec3<T> {
    open spec fn obeys_from_spec() -> bool {
        true
    }

    open spec fn from_spec(tuple: (T, T, T)) -> Vec3<T> {
        Vec3 { x: tuple.0, y: tuple.1, z: tuple.2 }
    }
}

impl<T: Copy> From<[T; 3]> for Vec3<T> {
    fn from(slice: [T; 3]) -> (v: Vec3<T>) {
        Vec3 { x: slice[0], y: slice[1], z: slice[2] }
    }
}

impl<T: Copy> FromSpecImpl<[T; 3]> for Vec3<T> {
    open spec fn obeys_from_spec() -> bool {
        true
    }

    open spec fn from_spec(slice: [T; 3]) -> Vec3<T> {
        Vec3 { x: slice[0], y: slice[1], z: slice[2] }
    }
}

impl<T: Scalar> From<Vec2<T>> for Vec3<T> {
    fn from(vec: Vec2<T>) -> (v: Vec3<T>) {
        Vec3 { x: vec.x, y: vec.y, z: T::zero() }
    }
}

impl<T: Scalar> FromSpecImpl<Vec2<T>> for Vec3<T> {
    open spec fn obeys_from_spec() -> bool {
        true
    }

    open spec fn from_spec(vec: Vec2<T>) -> Vec3<T> {
        Vec3 { x: vec.x, y: vec.y, z: T::zero_value() }
    }
}

impl<T> From<Vec4<T>> for Vec3<T> {
    fn from(vec: Vec4<T>) -> (v: Vec3<T>) {
        Vec3 { x: vec.x, y: vec.y, z: vec.z }
    }
}

impl<T> FromSpecImpl<Vec4<T>> for Vec3<T> {
    open spec fn obeys_from_spec() -> bool {
        true
    }

    open spec fn from_spec(vec: Vec4<T>) -> Vec3<T> {
        Vec3 { x: vec.x, y: vec.y, z: vec.z }
    }
}

impl<T: Copy> From<T> for Vec3<T> {
    fn from(value: T) -> (v: Vec3<T>) {
        Vec3 { x: value, y: value, z: value }
    }
}

impl<T: Copy> FromSpecImpl<T> for Vec3<T> {
    open spec fn obeys_from_spec() -> bool {
        true
    }

    open spec fn from_spec(value: T) -> Vec3<T> {
        Vec3 { x: value, y: value, z: value }
    }
}

impl<T: Scalar> Add for Vec3<T> {
    type Output = Vec3<T>;

    /// The sum of two vectors, component by component.
    fn add(self, right: Vec3<T>) -> (v: Vec3<T>) {
        Vec3 { x: self.x.plus(right.x), y: self.y.plus(right.y), z: self.z.plus(right.z) }
    }
}

impl<T: Scalar> AddSpecImpl for Vec3<T> {
    open spec fn obeys_add_spec() -> bool {
        true
    }

    open spec fn add_req(self, right: Vec3<T>) -> bool {
        true
    }

    open spec fn add_spec(self, right: Vec3<T>) -> Vec3<T> {
        Vec3 {
            x: self.x.plus_spec(right.x),
            y: self.y.plus_spec(right.y),
            z: self.z.plus_spec(right.z),
        }
    }
}

impl<T: Scalar> Sub for Vec3<T> {
    type Output = Vec3<T>;

    /// The difference of two vectors, component by component.
    fn sub(self, right: Vec3<T>) -> (v: Vec3<T>) {
        Vec3 { x: self.x.minus(right.x), y: self.y.minus(right.y), z: self.z.minus(right.z) }
    }
}

impl<T: Scalar> SubSpecImpl for Vec3<T> {
    open spec fn obeys_sub_spec() -> bool {
        true
    }

    open spec fn sub_req(self, right: Vec3<T>) -> bool {
        true
    }

    open spec fn sub_spec(self, right: Vec3<T>) -> Vec3<T> {
        Vec3 {
            x: self.x.minus_spec(right.x),
            y: self.y.minus_spec(right.y),
            z: self.z.minus_spec(right.z),
        }
    }
}

impl<T: Scalar> Mul<T> for Vec3<T> {
    type Output = Vec3<T>;

    /// The vector with each component multiplied by `right`.
    fn mul(self, right: T) -> (v: Vec3<T>) {
        Vec3 { x: self.x.times(right), y: self.y.times(right), z: self.z.times(right) }
    }
}

impl<T: Scalar> MulSpecImpl<T> for Vec3<T> {
    open spec fn obeys_mul_spec() -> bool {
        true
    }

    open spec fn mul_req(self, right: T) -> bool {
        true
    }

    open spec fn mul_spec(self, right: T) -> Vec3<T> {
        Vec3 {
            x: self.x.times_spec(right),
            y: self.y.times_spec(right),
            z: self.z.times_spec(right),
        }
    }
}

impl<T: Scalar> Neg for Vec3<T> {
    type Output = Vec3<T>;

    /// The vector with each component negated.
    fn neg(self) -> (v: Vec3<T>) {
        Vec3 { x: self.x.negated(), y: self.y.negated(), z: self.z.negated() }
    }
}

impl<T: Scalar> NegSpecImpl for Vec3<T> {
    open spec fn obeys_neg_spec() -> bool {
        true
    }

    open spec fn neg_req(self) -> bool {
        true
    }

    open spec fn neg_spec(self) -> Vec3<T> {
        Vec3 { x: self.x.negated_spec(), y: self.y.negated_spec(), z: self.z.negated_spec() }
    }
}

impl<T> Index<usize> for Vec3<T> {
    type Output = T;

    /// The component at `index`, counted from zero.
    fn index(&self, index: usize) -> (v: &T)
        ensures
            *v == self@[index as int],
    {
        if index == 0 {
            &self.x
        } else if index == 1 {
            &self.y
        } else {
            &self.z
        }
    }
}

impl<T> vstd::std_specs::core::IndexSpecImpl<usize> for Vec3<T> {
    open spec fn index_req(&self, index: &usize) -> bool {
        *index < 3
    }
}

impl<T> Dimensional for Vec3<T> {
    open spec fn dimension_spec() -> usize {
        3
    }

    fn dimension() -> (n: usize) {
        3
    }
}

impl<T: Scalar> Zero for Vec3<T> {
    open spec fn zero_spec() -> Self {
        Vec3 { x: T::zero_value(), y: T::zero_value(), z: T::zero_value() }
    }

    fn zero() -> (z: Self) {
        Vec3 { x: T::zero(), y: T::zero(), z: T::zero() }
    }
}

impl<T: Scalar> Vector<T> for Vec3<T> {
    proof fn shape(&self) {
    }

    fn get(&self, i: usize) -> (v: T) {
        if i == 0 {
            self.x
        } else if i == 1 {
            self.y
        } else {
            self.z
        }
    }

    fn set(&mut self, i: usize, v: T) {
        if i == 0 {
            self.x = v;
        } else if i == 1 {
            self.y = v;
        } else {
            self.z = v;
        }
        assert(self@ =~= old(self)@.update(i as int, v));
    }
}

impl<T: Scalar> Permute<T> for Vec3<T> {
}

} // verus!
