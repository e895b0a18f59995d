use crate::decomposition::{
    lu_solution, pivot_permutation, Dimensional, SquareMatrix, Vector, Zero, LU,
};
use crate::exact::{
    has_nonzero_pivots, is_exact, lu_solution_solves, plus_zero, row_terms, sum_to, times_vector,
};
use crate::scalar::{Real, Scalar};
use crate::vec2::Vec2;
use std::ops::{Add, Index, Mul, Sub};
use vstd::prelude::*;
use vstd::std_specs::convert::FromSpecImpl;
use vstd::std_specs::ops::{AddSpecImpl, MulSpecImpl, SubSpecImpl};

verus! {

/// A 2x2-component Euclidean matrix.
#[derive(Clone, Copy, Debug, PartialEq)]
pub struct Mat2<T> {
    /// The two rows of the matrix.
    pub rows: [Vec2<T>; 2],
}

impl<T> View for Mat2<T> {
    type V = Seq<Seq<T>>;

    open spec fn view(&self) -> Seq<Seq<T>> {
        Seq::new(2, |r: int| self.rows[r]@)
    }
}

impl<T: Scalar> Mat2<T> {
    /// The product of the matrix and a column vector: component `i` is the
    /// dot product of row `i` and `vec`.
    pub open spec fn apply_spec(self, vec: Vec2<T>) -> Vec2<T> {
        Vec2 { x: self.rows[0].dot_spec(vec), y: self.rows[1].dot_spec(vec) }
    }

    /// Constructs a 2x2 identity matrix.
    pub fn identity() -> (m: Mat2<T>)
        ensures
            m == Mat2::diagonal_spec(T::one_value()),
    {
        Mat2 {
            rows: [
                Vec2 { x: T::one(), y: T::zero() },
                Vec2 { x: T::zero(), y: T::one() },
            ],
        }
    }

    /// The matrix mirrored at its diagonal: rows become columns.
    pub open spec fn transposed_spec(self) -> Mat2<T> {
        Mat2::from_entries(|r: int, c: int| self@[c][r])
    }

    /// Extracts and returns a transposed representation of the calling
    /// `Mat2` object.
    pub fn transposed(&self) -> (m: Mat2<T>)
        ensures
            m == self.transposed_spec(),
    {
        Mat2 {
            rows: [
                Vec2 { x: self.rows[0].x, y: self.rows[1].x },
                Vec2 { x: self.rows[0].y, y: self.rows[1].y },
            ],
        }
    }

    /// Performs an in-place transposition of the calling `Mat2` object.
    pub fn transpose(&mut self)
        ensures
            *final(self) == old(self).transposed_spec(),
    {
        *self = self.transposed();
    }
}

impl<T: Scalar> Default for Mat2<T> {
    /// Returns the identity matrix.
    fn default() -> (m: Mat2<T>)
        ensures
            m == Mat2::diagonal_spec(T::one_value()),
    {
        Mat2::identity()
    }
}

impl<T: Copy> From<[Vec2<T>; 2]> for Mat2<T> {
    fn from(slice: [Vec2<T>; 2]) -> (m: Mat2<T>) {
        Mat2 { rows: [slice[0], slice[1]] }
    }
}

impl<T: Copy> FromSpecImpl<[Vec2<T>; 2]> for Mat2<T> {
    open spec fn obeys_from_spec() -> bool {
        true
    }

    open spec fn from_spec(slice: [Vec2<T>; 2]) -> Mat2<T> {
        Mat2 { rows: [slice[0], slice[1]] }
    }
}

impl<T: Copy> From<[[T; 2]; 2]> for Mat2<T> {
    fn from(slice: [[T; 2]; 2]) -> (m: Mat2<T>) {
        Mat2 {
            rows: [
                Vec2 { x: slice[0][0], y: slice[0][1] },
                Vec2 { x: slice[1][0], y: slice[1][1] },
            ],
        }
    }
}

impl<T: Copy> FromSpecImpl<[[T; 2]; 2]> for Mat2<T> {
    open spec fn obeys_from_spec() -> bool {
        true
    }

    open spec fn from_spec(slice: [[T; 2]; 2]) -> Mat2<T> {
        Mat2 {
            rows: [
                Vec2 { x: slice[0][0], y: slice[0][1] },
                Vec2 { x: slice[1][0], y: slice[1][1] },
            ],
        }
    }
}

impl<T: Scalar> Add for Mat2<T> {
    type Output = Mat2<T>;

    /// The sum of two matrices, entry by entry.
    fn add(self, right: Mat2<T>) -> (m: Mat2<T>) {
        Mat2 {
            rows: [
                self.rows[0] + right.rows[0],
                self.rows[1] + right.rows[1],
            ],
        }
    }
}

impl<T: Scalar> AddSpecImpl for Mat2<T> {
    open spec fn obeys_add_spec() -> bool {
        true
    }

    open spec fn add_req(self, right: Mat2<T>) -> bool {
        true
    }

    open spec fn add_spec(self, right: Mat2<T>) -> Mat2<T> {
        self.sum_spec(right)
    }
}

impl<T: Scalar> Sub for Mat2<T> {
    type Output = Mat2<T>;

    /// The difference of two matrices, entry by entry.
    fn sub(self, right: Mat2<T>) -> (m: Mat2<T>) {
        Mat2 {
            rows: [
                self.rows[0] - right.rows[0],
                self.rows[1] - right.rows[1],
            ],
        }
    }
}

impl<T: Scalar> SubSpecImpl for Mat2<T> {
    open spec fn obeys_sub_spec() -> bool {
        true
    }

    open spec fn sub_req(self, right: Mat2<T>) -> bool {
        true
    }

    open spec fn sub_spec(self, right: Mat2<T>) -> Mat2<T> {
        self.difference_spec(right)
    }
}

impl<T: Scalar> Mul<Vec2<T>> for Mat2<T> {
    type Output = Vec2<T>;

    /// The product of the matrix and a column vector.
    fn mul(self, vec: Vec2<T>) -> (v: Vec2<T>) {
        Vec2 { x: self.rows[0].dot(vec), y: self.rows[1].dot(vec) }
    }
}

impl<T: Scalar> MulSpecImpl<Vec2<T>> for Mat2<T> {
    open spec fn obeys_mul_spec() -> bool {
        true
    }

    open spec fn mul_req(self, vec: Vec2<T>) -> bool {
        true
    }

    open spec fn mul_spec(self, vec: Vec2<T>) -> Vec2<T> {
        self.apply_spec(vec)
    }
}

impl<T> Index<usize> for Mat2<T> {
    type Output = Vec2<T>;

    /// The row at `index`, counted from zero.
    fn index(&self, index: usize) -> (row: &Vec2<T>)
        ensures
            row@ == self@[index as int],
    {
        &self.rows[index]
    }
}

impl<T> vstd::std_specs::core::IndexSpecImpl<usize> for Mat2<T> {
    open spec fn index_req(&self, index: &usize) -> bool {
        *index < 2
    }
}

impl<T> Dimensional for Mat2<T> {
    open spec fn dimension_spec() -> usize {
        2
    }

    fn dimension() -> (n: usize) {
        2
    }
}

impl<T: Scalar> Zero for Mat2<T> {
    open spec fn zero_spec() -> Self {
        Mat2 {
            rows: [
                Vec2 { x: T::zero_value(), y: T::zero_value() },
                Vec2 { x: T::zero_value(), y: T::zero_value() },
            ],
        }
    }

    fn zero() -> (z: Self) {
        Mat2 {
            rows: [
                Vec2 { x: T::zero(), y: T::zero() },
                Vec2 { x: T::zero(), y: T::zero() },
            ],
        }
    }
}

impl<T: Scalar> SquareMatrix<T> for Mat2<T> {
    proof fn shape(&self) {
    }

    proof fn zero_entries() {
    }

    fn identity() -> (m: Self) {
        Mat2::identity()
    }

    fn at(&self, row: usize, col: usize) -> (v: T) {
        self.rows[row].get(col)
    }

    fn put(&mut self, row: usize, col: usize, v: T) {
        let mut changed = self.rows[row];
        changed.set(col, v);
        self.rows[row] = changed;
        assert(self@ =~~= old(self)@.update(
            row as int,
            old(self)@[row as int].update(col as int, v),
        ));
    }
}

impl<T: Scalar> LU<T, Vec2<T>> for Mat2<T> {
    proof fn same_dimension() {
        assert(Vec2::<T>::dimension_spec() == 2);
        assert(Mat2::<T>::dimension_spec() == 2);
    }
}

impl<T: Scalar> Mat2<T> {
    /// The matrix whose entry at `r` and `c` is `f(r, c)`.
    pub open spec fn from_entries(f: spec_fn(int, int) -> T) -> Mat2<T> {
        Mat2 {
            rows: [
                Vec2 { x: f(0, 0), y: f(0, 1) },
                Vec2 { x: f(1, 0), y: f(1, 1) },
            ],
        }
    }

    /// The sum of two matrices, entry by entry.
    pub open spec fn sum_spec(self, right: Mat2<T>) -> Mat2<T> {
        Mat2::from_entries(|r: int, c: int| self@[r][c].plus_spec(right@[r][c]))
    }

    /// The difference of two matrices, entry by entry.
    pub open spec fn difference_spec(self, right: Mat2<T>) -> Mat2<T> {
        Mat2::from_entries(|r: int, c: int| self@[r][c].minus_spec(right@[r][c]))
    }

    /// The matrix with `value` on the diagonal and zeros elsewhere.
    pub open spec fn diagonal_spec(value: T) -> Mat2<T> {
        Mat2::from_entries(
            |r: int, c: int|
                if r == c {
                    value
                } else {
                    T::zero_value()
                },
        )
    }

    /// The entry at `r` and `c` of the matrix product of `right` and `self`, in this
    /// order: it sums the products of column `c` of `self` with row `r` of `right`, from
    /// the left.
    pub open spec fn product_entry_spec(self, right: Mat2<T>, r: int, c: int) -> T {
        self@[0][c].times_spec(right@[r][0])
            .plus_spec(self@[1][c].times_spec(right@[r][1]))
    }

    /// The matrix of the entries that `product_entry_spec` gives.
    pub open spec fn product_spec(self, right: Mat2<T>) -> Mat2<T> {
        Mat2::from_entries(|r: int, c: int| self.product_entry_spec(right, r, c))
    }

    fn product_entry(&self, right: &Mat2<T>, r: usize, c: usize) -> (v: T)
        requires
            r < 2,
            c < 2,
        ensures
            v == self.product_entry_spec(*right, r as int, c as int),
    {
        self.at(0, c).times(right.at(r, 0))
            .plus(self.at(1, c).times(right.at(r, 1)))
    }

    /// The matrix with each row multiplied by the component of `factor` of the
    /// row's position.
    pub open spec fn scaled_spec(self, factor: Vec2<T>) -> Mat2<T> {
        Mat2::from_entries(|r: int, c: int| self@[r][c].times_spec(factor@[r]))
    }

    /// Calculates and returns a `Mat2` object representing the calling `Mat2` object scaled
    /// by a `Vec2<T>`.
    pub fn scaled(&self, factor: Vec2<T>) -> (m: Mat2<T>)
        ensures
            m == self.scaled_spec(factor),
    {
        Mat2 {
            rows: [
                Vec2 {
                    x: self.rows[0].x.times(factor.x),
                    y: self.rows[0].y.times(factor.x),
                },
                Vec2 {
                    x: self.rows[1].x.times(factor.y),
                    y: self.rows[1].y.times(factor.y),
                },
            ],
        }
    }

    /// Scales the calling `Mat2` object by a `Vec2<T>`.
    pub fn scale(&mut self, factor: Vec2<T>)
        ensures
            *final(self) == old(self).scaled_spec(factor),
    {
        *self = self.scaled(factor);
    }

    /// Adds `right` to the calling `Mat2`, entry by entry.
    pub fn add_assign(&mut self, right: Mat2<T>)
        ensures
            *final(self) == old(self).sum_spec(right),
    {
        *self = *self + right;
    }

    /// Subtracts `right` from the calling `Mat2`, entry by entry.
    pub fn sub_assign(&mut self, right: Mat2<T>)
        ensures
            *final(self) == old(self).difference_spec(right),
    {
        *self = *self - right;
    }

    /// Replaces the calling `Mat2` by its product with `right`.
    pub fn mul_assign(&mut self, right: Mat2<T>)
        ensures
            *final(self) == old(self).product_spec(right),
    {
        *self = *self * right;
    }
}

impl<T: Scalar> From<T> for Mat2<T> {
    fn from(value: T) -> (m: Mat2<T>) {
        Mat2 {
            rows: [
                Vec2 {
                    x: value,
                    y: T::zero(),
                },
                Vec2 {
                    x: T::zero(),
                    y: value,
                },
            ],
        }
    }
}

impl<T: Scalar> FromSpecImpl<T> for Mat2<T> {
    open spec fn obeys_from_spec() -> bool {
        true
    }

    open spec fn from_spec(value: T) -> Mat2<T> {
        Mat2::diagonal_spec(value)
    }
}

impl<T: Scalar> Mul<Mat2<T>> for Mat2<T> {
    type Output = Mat2<T>;

    /// The product of two matrices.
    fn mul(self, right: Mat2<T>) -> (m: Mat2<T>) {
        Mat2 {
            rows: [
                Vec2 {
                    x: self.product_entry(&right, 0, 0),
                    y: self.product_entry(&right, 0, 1),
                },
                Vec2 {
                    x: self.product_entry(&right, 1, 0),
                    y: self.product_entry(&right, 1, 1),
                },
            ],
        }
    }
}

impl<T: Scalar> MulSpecImpl<Mat2<T>> for Mat2<T> {
    open spec fn obeys_mul_spec() -> bool {
        true
    }

    open spec fn mul_req(self, right: Mat2<T>) -> bool {
        true
    }

    open spec fn mul_spec(self, right: Mat2<T>) -> Mat2<T> {
        self.product_spec(right)
    }
}

impl<T> From<((T, T), (T, T))> for Mat2<T> {
    fn from(tuple: ((T, T), (T, T))) -> (m: Mat2<T>) {
        Mat2 {
            rows: [
                Vec2 { x: tuple.0.0, y: tuple.0.1 },
                Vec2 { x: tuple.1.0, y: tuple.1.1 },
            ],
        }
    }
}

impl<T> FromSpecImpl<((T, T), (T, T))> for Mat2<T> {
    open spec fn obeys_from_spec() -> bool {
        true
    }

    open spec fn from_spec(tuple: ((T, T), (T, T))) -> Mat2<T> {
        Mat2 {
            rows: [
                Vec2 { x: tuple.0.0, y: tuple.0.1 },
                Vec2 { x: tuple.1.0, y: tuple.1.1 },
            ],
        }
    }
}

impl<T> From<(T, T, T, T)> for Mat2<T> {
    fn from(tuple: (T, T, T, T)) -> (m: Mat2<T>) {
        Mat2 {
            rows: [
                Vec2 { x: tuple.0, y: tuple.1 },
                Vec2 { x: tuple.2, y: tuple.3 },
            ],
        }
    }
}

impl<T> FromSpecImpl<(T, T, T, T)> for Mat2<T> {
    open spec fn obeys_from_spec() -> bool {
        true
    }

    open spec fn from_spec(tuple: (T, T, T, T)) -> Mat2<T> {
        Mat2 {
            rows: [
                Vec2 { x: tuple.0, y: tuple.1 },
                Vec2 { x: tuple.2, y: tuple.3 },
            ],
        }
    }
}

impl<T: Copy> From<[T; 4]> for Mat2<T> {
    fn from(slice: [T; 4]) -> (m: Mat2<T>) {
        Mat2 {
            rows: [
                Vec2 { x: slice[0], y: slice[1] },
                Vec2 { x: slice[2], y: slice[3] },
            ],
        }
    }
}

impl<T: Copy> FromSpecImpl<[T; 4]> for Mat2<T> {
    open spec fn obeys_from_spec() -> bool {
        true
    }

    open spec fn from_spec(slice: [T; 4]) -> Mat2<T> {
        Mat2 {
            rows: [
                Vec2 { x: slice[0], y: slice[1] },
                Vec2 { x: slice[2], y: slice[3] },
            ],
        }
    }
}

impl<T> From<(Vec2<T>, Vec2<T>)> for Mat2<T> {
    fn from(tuple: (Vec2<T>, Vec2<T>)) -> (m: Mat2<T>) {
        Mat2 {
            rows: [
                Vec2 { x: tuple.0.x, y: tuple.0.y },
                Vec2 { x: tuple.1.x, y: tuple.1.y },
            ],
        }
    }
}

impl<T> FromSpecImpl<(Vec2<T>, Vec2<T>)> for Mat2<T> {
    open spec fn obeys_from_spec() -> bool {
        true
    }

    open spec fn from_spec(tuple: (Vec2<T>, Vec2<T>)) -> Mat2<T> {
        Mat2 {
            rows: [
                Vec2 { x: tuple.0.x, y: tuple.0.y },
                Vec2 { x: tuple.1.x, y: tuple.1.y },
            ],
        }
    }
}

impl<T: Real> Mat2<T> {
    /// The rotation matrix of the angle `radians`: its cosine on the diagonal of the upper
    /// left 2x2 block, its sine below and the negated sine above.
    pub open spec fn rotation_spec(radians: T) -> Mat2<T> {
        let sin = radians.sin_spec();
        let cos = radians.cos_spec();
        Mat2 {
            rows: [
                Vec2 {
                    x: cos,
                    y: sin.negated_spec(),
                },
                Vec2 {
                    x: sin,
                    y: cos,
                },
            ],
        }
    }

    /// Constructs a 2x2 rotation matrix from a radians value.
    pub fn rotation(radians: T) -> (m: Mat2<T>)
        ensures
            m == Mat2::rotation_spec(radians),
    {
        let sin = radians.sin();
        let cos = radians.cos();
        Mat2 {
            rows: [
                Vec2 {
                    x: cos,
                    y: sin.negated(),
                },
                Vec2 {
                    x: sin,
                    y: cos,
                },
            ],
        }
    }

    /// Calculates and returns a `Mat2` object representing the calling `Mat2` object
    /// rotated by a radians value.
    pub fn rotated(&self, radians: T) -> (m: Mat2<T>)
        ensures
            m == self.product_spec(Mat2::rotation_spec(radians)),
    {
        *self * Mat2::rotation(radians)
    }

    /// Rotates the calling `Mat2` object by a radians value.
    pub fn rotate(&mut self, radians: T)
        ensures
            *final(self) == old(self).product_spec(Mat2::rotation_spec(radians)),
    {
        *self = self.rotated(radians);
    }
}

/// In exact arithmetic the solver solves the system: where every pivot of
/// the factorization is other than zero, as it is for a matrix of full rank,
/// the product of the matrix `a` and the vector `x` that the solver yields
/// for `b` is `b`. Nothing of the kind is stated for rounding arithmetic.
pub proof fn exact_solution_solves<T: Scalar>(a: Mat2<T>, b: Vec2<T>, x: Vec2<T>)
    requires
        is_exact::<T>(),
        has_nonzero_pivots(a@, pivot_permutation(a@)),
        x@ == lu_solution(a@, b@),
    ensures
        a.apply_spec(x) == b,
{
    reveal_with_fuel(sum_to, 3);
    lu_solution_solves(a@, b@);
    let product = times_vector(a@, x@);
    assert(product[0] == sum_to(row_terms(a@, x@, 0), 2));
    plus_zero(a@[0][0].times_spec(x@[0]));
    assert(product[1] == sum_to(row_terms(a@, x@, 1), 2));
    plus_zero(a@[1][0].times_spec(x@[0]));
}

} // verus!
