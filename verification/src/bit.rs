use crate::exact::is_exact;
use crate::scalar::Scalar;
use vstd::prelude::*;

verus! {

/// An element of the field of two elements: the smallest scalar whose
/// arithmetic is exact. Sums and differences are taken modulo two, so that
/// adding and subtracting are the same, and the product is the conjunction.
#[derive(Clone, Copy, Debug, PartialEq, Eq)]
pub struct Bit(pub bool);

impl Scalar for Bit {
    open spec fn zero_value() -> Self {
        Bit(false)
    }

    open spec fn one_value() -> Self {
        Bit(true)
    }

    open spec fn plus_spec(self, rhs: Self) -> Self {
        Bit(self.0 != rhs.0)
    }

    open spec fn minus_spec(self, rhs: Self) -> Self {
        Bit(self.0 != rhs.0)
    }

    open spec fn times_spec(self, rhs: Self) -> Self {
        Bit(self.0 && rhs.0)
    }

    /// The quotient by one is the dividend. So is the quotient by zero,
    /// which no law constrains.
    open spec fn over_spec(self, rhs: Self) -> Self {
        self
    }

    open spec fn negated_spec(self) -> Self {
        self
    }

    open spec fn abs_spec(self) -> Self {
        self
    }

    open spec fn less_than_spec(self, rhs: Self) -> bool {
        !self.0 && rhs.0
    }

    fn zero() -> (r: Self) {
        Bit(false)
    }

    fn one() -> (r: Self) {
        Bit(true)
    }

    fn plus(self, rhs: Self) -> (r: Self) {
        Bit(self.0 != rhs.0)
    }

    fn minus(self, rhs: Self) -> (r: Self) {
        Bit(self.0 != rhs.0)
    }

    fn times(self, rhs: Self) -> (r: Self) {
        Bit(self.0 && rhs.0)
    }

    fn over(self, rhs: Self) -> (r: Self) {
        self
    }

    fn negated(self) -> (r: Self) {
        self
    }

    fn abs(self) -> (r: Self) {
        self
    }

    fn less_than(self, rhs: Self) -> (r: bool) {
        !self.0 && rhs.0
    }
}

/// The arithmetic of the field of two elements is exact, so what is proved
/// of exact arithmetic holds of it.
pub proof fn bits_are_exact()
    ensures
        is_exact::<Bit>(),
{
    reveal(is_exact);
}

} // verus!
