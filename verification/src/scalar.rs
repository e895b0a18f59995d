use vstd::prelude::*;

verus! {

/// The element type of the vectors and matrices of this crate, and the
/// arithmetic that the solver performs on it.
///
/// Every operation is total: it returns a value for every operand, as the
/// arithmetic of IEEE numbers does, where a division by zero yields an
/// infinity or a not-a-number and is no fault. Every operation is also a
/// function of its operands: the executable method returns exactly the value of
/// its specification twin. Nothing else is assumed; in particular no law of
/// algebra (associativity, distributivity, a total order) is taken for granted.
///
/// The contracts of this crate are stated over the specification twins, so a
/// proof about a computation holds for an implementor only as far as its
/// methods keep this promise. The intended element types are machine
/// floating-point numbers, which live with the caller; within this crate the
/// field of two elements implements the trait.
pub trait Scalar: Copy {
    /// Zero, the value of an empty sum.
    spec fn zero_value() -> Self;

    /// One, the entry on the diagonal of an identity matrix.
    spec fn one_value() -> Self;

    /// `self + rhs`.
    spec fn plus_spec(self, rhs: Self) -> Self;

    /// `self - rhs`.
    spec fn minus_spec(self, rhs: Self) -> Self;

    /// `self * rhs`.
    spec fn times_spec(self, rhs: Self) -> Self;

    /// `self / rhs`.
    spec fn over_spec(self, rhs: Self) -> Self;

    /// `-self`.
    spec fn negated_spec(self) -> Self;

    /// `|self|`.
    spec fn abs_spec(self) -> Self;

    /// `self < rhs`.
    spec fn less_than_spec(self, rhs: Self) -> bool;

    /// Returns zero.
    fn zero() -> (r: Self)
        ensures
            r == Self::zero_value(),
    ;

    /// Returns one.
    fn one() -> (r: Self)
        ensures
            r == Self::one_value(),
    ;

    /// Returns `self + rhs`.
    fn plus(self, rhs: Self) -> (r: Self)
        ensures
            r == self.plus_spec(rhs),
    ;

    /// Returns `self - rhs`.
    fn minus(self, rhs: Self) -> (r: Self)
        ensures
            r == self.minus_spec(rhs),
    ;

    /// Returns `self * rhs`.
    fn times(self, rhs: Self) -> (r: Self)
        ensures
            r == self.times_spec(rhs),
    ;

    /// Returns `self / rhs`; a divisor of zero is no fault.
    fn over(self, rhs: Self) -> (r: Self)
        ensures
            r == self.over_spec(rhs),
    ;

    /// Returns `-self`.
    fn negated(self) -> (r: Self)
        ensures
            r == self.negated_spec(),
    ;

    /// Returns `|self|`.
    fn abs(self) -> (r: Self)
        ensures
            r == self.abs_spec(),
    ;

    /// Returns whether `self < rhs`.
    fn less_than(self, rhs: Self) -> (r: bool)
        ensures
            r == self.less_than_spec(rhs),
    ;
}

/// A scalar with a square root, a sine, a cosine and a test for equality, as
/// lengths and rotations need them.
pub trait Real: Scalar {
    /// The square root of `self`.
    spec fn sqrt_spec(self) -> Self;

    /// The sine of the angle `self`, in radians.
    spec fn sin_spec(self) -> Self;

    /// The cosine of the angle `self`, in radians.
    spec fn cos_spec(self) -> Self;

    /// `self == rhs`, as the scalar compares: this need not be identity (a
    /// positive and a negative zero may count as equal, a not-a-number as
    /// unequal to itself).
    spec fn equals_spec(self, rhs: Self) -> bool;

    /// Returns the square root of `self`.
    fn sqrt(self) -> (r: Self)
        ensures
            r == self.sqrt_spec(),
    ;

    /// Returns the sine of `self`.
    fn sin(self) -> (r: Self)
        ensures
            r == self.sin_spec(),
    ;

    /// Returns the cosine of `self`.
    fn cos(self) -> (r: Self)
        ensures
            r == self.cos_spec(),
    ;

    /// Returns whether `self == rhs`.
    fn equals(self, rhs: Self) -> (r: bool)
        ensures
            r == self.equals_spec(rhs),
    ;
}

} // verus!
