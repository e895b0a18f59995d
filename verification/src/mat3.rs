use crate::decomposition::{
    lu_solution, pivot_permutation, Dimensional, SquareMatrix, Vector, Zero, LU,
};
use crate::exact::{
    has_nonzero_pivots, is_exact, lu_solution_solves, plus_zero, row_terms, sum_to, times_vector,
};
use crate::scalar::{Real, Scalar};
use crate::vec2::Vec2;
use crate::vec3::Vec3;
use std::ops::{Add, Index, Mul, Sub};
use vstd::prelude::*;
use vstd::std_specs::convert::FromSpecImpl;
use vstd::std_specs::ops::{AddSpecImpl, MulSpecImpl, SubSpecImpl};

verus! {

/// A 3x3-component Euclidean matrix.
#[derive(Clone, Copy, Debug, PartialEq)]
pub struct Mat3<T> {
    /// The three rows of the matrix.
    pub rows: [Vec3<T>; 3],
}

impl<T> View for Mat3<T> {
    type V = Seq<Seq<T>>;

    open spec fn view(&self) -> Seq<Seq<T>> {
        Seq::new(3, |r: int| self.rows[r]@)
    }
}

impl<T: Scalar> Mat3<T> {
    /// The product of the matrix and a column vector: component `i` is the
    /// dot product of row `i` and `vec`.
    pub open spec fn apply_spec(self, vec: Vec3<T>) -> Vec3<T> {
        Vec3 {
            x: self.rows[0].dot_spec(vec),
            y: self.rows[1].dot_spec(vec),
            z: self.rows[2].dot_spec(vec),
        }
    }

    /// Constructs a 3x3 identity matrix.
    pub fn identity() -> (m: Mat3<T>)
        ensures
            m == Mat3::diagonal_spec(T::one_value()),
    {
        Mat3 {
            rows: [
                Vec3 { x: T::one(), y: T::zero(), z: T::zero() },
                Vec3 { x: T::zero(), y: T::one(), z: T::zero() },
                Vec3 { x: T::zero(), y: T::zero(), z: T::one() },
            ],
        }
    }

    /// The matrix mirrored at its diagonal: rows become columns.
    pub open spec fn transposed_spec(self) -> Mat3<T> {
        Mat3::from_entries(|r: int, c: int| self@[c][r])
    }

    /// Extracts and returns a transposed representation of the calling
    /// `Mat3` object.
    pub fn transposed(&self) -> (m: Mat3<T>)
        ensures
            m == self.transposed_spec(),
    {
        Mat3 {
            rows: [
                Vec3 { x: self.rows[0].x, y: self.rows[1].x, z: self.rows[2].x },
                Vec3 { x: self.rows[0].y, y: self.rows[1].y, z: self.rows[2].y },
                Vec3 { x: self.rows[0].z, y: self.rows[1].z, z: self.rows[2].z },
            ],
        }
    }

    /// Performs an in-place transposition of the calling `Mat3` object.
    pub fn transpose(&mut self)
        ensures
            *final(self) == old(self).transposed_spec(),
    {
        *self = self.transposed();
    }
}

impl<T: Scalar> Default for Mat3<T> {
    /// Returns the identity matrix.
    fn default() -> (m: Mat3<T>)
        ensures
            m == Mat3::diagonal_spec(T::one_value()),
    {
        Mat3::identity()
    }
}

impl<T: Copy> From<[Vec3<T>; 3]> for Mat3<T> {
    fn from(slice: [Vec3<T>; 3]) -> (m: Mat3<T>) {
        Mat3 { rows: [slice[0], slice[1], slice[2]] }
    }
}

impl<T: Copy> FromSpecImpl<[Vec3<T>; 3]> for Mat3<T> {
    open spec fn obeys_from_spec() -> bool {
        true
    }

    open spec fn from_spec(slice: [Vec3<T>; 3]) -> Mat3<T> {
        Mat3 { rows: [slice[0], slice[1], slice[2]] }
    }
}

impl<T: Copy> From<[[T; 3]; 3]> for Mat3<T> {
    fn from(slice: [[T; 3]; 3]) -> (m: Mat3<T>) {
        Mat3 {
            rows: [
                Vec3 { x: slice[0][0], y: slice[0][1], z: slice[0][2] },
                Vec3 { x: slice[1][0], y: slice[1][1], z: slice[1][2] },
                Vec3 { x: slice[2][0], y: slice[2][1], z: slice[2][2] },
            ],
        }
    }
}

impl<T: Copy> FromSpecImpl<[[T; 3]; 3]> for Mat3<T> {
    open spec fn obeys_from_spec() -> bool {
        true
    }

    open spec fn from_spec(slice: [[T; 3]; 3]) -> Mat3<T> {
        Mat3 {
            rows: [
                Vec3 { x: slice[0][0], y: slice[0][1], z: slice[0][2] },
                Vec3 { x: slice[1][0], y: slice[1][1], z: slice[1][2] },
                Vec3 { x: slice[2][0], y: slice[2][1], z: slice[2][2] },
            ],
        }
    }
}

impl<T: Scalar> Add for Mat3<T> {
    type Output = Mat3<T>;

    /// The sum of two matrices, entry by entry.
    fn add(self, right: Mat3<T>) -> (m: Mat3<T>) {
        Mat3 {
            rows: [
                self.rows[0] + right.rows[0],
                self.rows[1] + right.rows[1],
                self.rows[2] + right.rows[2],
            ],
        }
    }
}

impl<T: Scalar> AddSpecImpl for Mat3<T> {
    open spec fn obeys_add_spec() -> bool {
        true
    }

    open spec fn add_req(self, right: Mat3<T>) -> bool {
        true
    }

    open spec fn add_spec(self, right: Mat3<T>) -> Mat3<T> {
        self.sum_spec(right)
    }
}

impl<T: Scalar> Sub for Mat3<T> {
    type Output = Mat3<T>;

    /// The difference of two matrices, entry by entry.
    fn sub(self, right: Mat3<T>) -> (m: Mat3<T>) {
        Mat3 {
            rows: [
                self.rows[0] - right.rows[0],
                self.rows[1] - right.rows[1],
                self.rows[2] - right.rows[2],
            ],
        }
    }
}

impl<T: Scalar> SubSpecImpl for Mat3<T> {
    open spec fn obeys_sub_spec() -> bool {
        true
    }

    open spec fn sub_req(self, right: Mat3<T>) -> bool {
        true
    }

    open spec fn sub_spec(self, right: Mat3<T>) -> Mat3<T> {
        self.difference_spec(right)
    }
}

impl<T: Scalar> Mul<Vec3<T>> for Mat3<T> {
    type Output = Vec3<T>;

    /// The product of the matrix and a column vector.
    fn mul(self, vec: Vec3<T>) -> (v: Vec3<T>) {
        Vec3 { x: self.rows[0].dot(vec), y: self.rows[1].dot(vec), z: self.rows[2].dot(vec) }
    }
}

impl<T: Scalar> MulSpecImpl<Vec3<T>> for Mat3<T> {
    open spec fn obeys_mul_spec() -> bool {
        true
    }

    open spec fn mul_req(self, vec: Vec3<T>) -> bool {
        true
    }

    open spec fn mul_spec(self, vec: Vec3<T>) -> Vec3<T> {
        self.apply_spec(vec)
    }
}

impl<T> Index<usize> for Mat3<T> {
    type Output = Vec3<T>;

    /// The row at `index`, counted from zero.
    fn index(&self, index: usize) -> (row: &Vec3<T>)
        ensures
            row@ == self@[index as int],
    {
        &self.rows[index]
    }
}

impl<T> vstd::std_specs::core::IndexSpecImpl<usize> for Mat3<T> {
    open spec fn index_req(&self, index: &usize) -> bool {
        *index < 3
    }
}

impl<T> Dimensional for Mat3<T> {
    open spec fn dimension_spec() -> usize {
        3
    }

    fn dimension() -> (n: usize) {
        3
    }
}

impl<T: Scalar> Zero for Mat3<T> {
    open spec fn zero_spec() -> Self {
        Mat3 {
            rows: [
                Vec3 { x: T::zero_value(), y: T::zero_value(), z: T::zero_value() },
                Vec3 { x: T::zero_value(), y: T::zero_value(), z: T::zero_value() },
                Vec3 { x: T::zero_value(), y: T::zero_value(), z: T::zero_value() },
            ],
        }
    }

    fn zero() -> (z: Self) {
        Mat3 {
            rows: [
                Vec3 { x: T::zero(), y: T::zero(), z: T::zero() },
                Vec3 { x: T::zero(), y: T::zero(), z: T::zero() },
                Vec3 { x: T::zero(), y: T::zero(), z: T::zero() },
            ],
        }
    }
}

impl<T: Scalar> SquareMatrix<T> for Mat3<T> {
    proof fn shape(&self) {
    }

    proof fn zero_entries() {
    }

    fn identity() -> (m: Self) {
        Mat3::identity()
    }

    fn at(&self, row: usize, col: usize) -> (v: T) {
        self.rows[row].get(col)
    }

    fn put(&mut self, row: usize, col: usize, v: T) {
        let mut changed = self.rows[row];
        changed.set(col, v);
        self.rows[row] = changed;
        assert(self@ =~~= old(self)@.update(
            row as int,
            old(self)@[row as int].update(col as int, v),
        ));
    }
}

impl<T: Scalar> LU<T, Vec3<T>> for Mat3<T> {
    proof fn same_dimension() {
        assert(Vec3::<T>::dimension_spec() == 3);
        assert(Mat3::<T>::dimension_spec() == 3);
    }
}

impl<T: Scalar> Mat3<T> {
    /// The matrix whose entry at `r` and `c` is `f(r, c)`.
    pub open spec fn from_entries(f: spec_fn(int, int) -> T) -> Mat3<T> {
        Mat3 {
            rows: [
                Vec3 { x: f(0, 0), y: f(0, 1), z: f(0, 2) },
                Vec3 { x: f(1, 0), y: f(1, 1), z: f(1, 2) },
                Vec3 { x: f(2, 0), y: f(2, 1), z: f(2, 2) },
            ],
        }
    }

    /// The sum of two matrices, entry by entry.
    pub open spec fn sum_spec(self, right: Mat3<T>) -> Mat3<T> {
        Mat3::from_entries(|r: int, c: int| self@[r][c].plus_spec(right@[r][c]))
    }

    /// The difference of two matrices, entry by entry.
    pub open spec fn difference_spec(self, right: Mat3<T>) -> Mat3<T> {
        Mat3::from_entries(|r: int, c: int| self@[r][c].minus_spec(right@[r][c]))
    }

    /// The matrix with `value` on the diagonal and zeros elsewhere.
    pub open spec fn diagonal_spec(value: T) -> Mat3<T> {
        Mat3::from_entries(
            |r: int, c: int|
                if r == c {
                    value
                } else {
                    T::zero_value()
                },
        )
    }

    /// The entry at `r` and `c` of the matrix product of `right` and `self`, in this
    /// order: it sums the products of column `c` of `self` with row `r` of `right`, from
    /// the left.
    pub open spec fn product_entry_spec(self, right: Mat3<T>, r: int, c: int) -> T {
        self@[0][c].times_spec(right@[r][0])
            .plus_spec(self@[1][c].times_spec(right@[r][1]))
            .plus_spec(self@[2][c].times_spec(right@[r][2]))
    }

    /// The matrix of the entries that `product_entry_spec` gives.
    pub open spec fn product_spec(self, right: Mat3<T>) -> Mat3<T> {
        Mat3::from_entries(|r: int, c: int| self.product_entry_spec(right, r, c))
    }

    fn product_entry(&self, right: &Mat3<T>, r: usize, c: usize) -> (v: T)
        requires
            r < 3,
            c < 3,
        ensures
            v == self.product_entry_spec(*right, r as int, c as int),
    {
        self.at(0, c).times(right.at(r, 0))
            .plus(self.at(1, c).times(right.at(r, 1)))
            .plus(self.at(2, c).times(right.at(r, 2)))
    }

    /// The matrix with each of the first two rows multiplied by the component of `factor` of the
    /// row's position.
    pub open spec fn scaled_spec(self, factor: Vec2<T>) -> Mat3<T> {
        Mat3::from_entries(
            |r: int, c: int|
                if r < 2 {
                    self@[r][c].times_spec(factor@[r])
                } else {
                    self@[r][c]
                },
        )
    }

    /// Calculates and returns a `Mat3` object representing the calling `Mat3` object scaled
    /// by a `Vec2<T>`.
    pub fn scaled(&self, factor: Vec2<T>) -> (m: Mat3<T>)
        ensures
            m == self.scaled_spec(factor),
    {
        Mat3 {
            rows: [
                Vec3 {
                    x: self.rows[0].x.times(factor.x),
                    y: self.rows[0].y.times(factor.x),
                    z: self.rows[0].z.times(factor.x),
                },
                Vec3 {
                    x: self.rows[1].x.times(factor.y),
                    y: self.rows[1].y.times(factor.y),
                    z: self.rows[1].z.times(factor.y),
                },
                Vec3 {
                    x: self.rows[2].x,
                    y: self.rows[2].y,
                    z: self.rows[2].z,
                },
            ],
        }
    }

    /// Scales the calling `Mat3` object by a `Vec2<T>`.
    pub fn scale(&mut self, factor: Vec2<T>)
        ensures
            *final(self) == old(self).scaled_spec(factor),
    {
        *self = self.scaled(factor);
    }

    /// The matrix with the products of its other rows and the components of `translation`,
    /// summed from the left, added to its last row.
    pub open spec fn translated_spec(self, translation: Vec2<T>) -> Mat3<T> {
        Mat3::from_entries(
            |r: int, c: int|
                if r == 2 {
                    self@[r][c].plus_spec(
                        self@[0][c].times_spec(translation@[0])
                            .plus_spec(self@[1][c].times_spec(translation@[1])),
                    )
                } else {
                    self@[r][c]
                },
        )
    }

    /// Calculates and returns a `Mat3` object representing the calling `Mat3` object
    /// translated by a `Vec2<T>`.
    pub fn translated(&self, translation: Vec2<T>) -> (m: Mat3<T>)
        ensures
            m == self.translated_spec(translation),
    {
        Mat3 {
            rows: [
                Vec3 {
                    x: self.rows[0].x,
                    y: self.rows[0].y,
                    z: self.rows[0].z,
                },
                Vec3 {
                    x: self.rows[1].x,
                    y: self.rows[1].y,
                    z: self.rows[1].z,
                },
                Vec3 {
                    x: self.rows[2].x
                        .plus(
                            self.rows[0].x.times(translation.x)
                                .plus(self.rows[1].x.times(translation.y)),
                        ),
                    y: self.rows[2].y
                        .plus(
                            self.rows[0].y.times(translation.x)
                                .plus(self.rows[1].y.times(translation.y)),
                        ),
                    z: self.rows[2].z
                        .plus(
                            self.rows[0].z.times(translation.x)
                                .plus(self.rows[1].z.times(translation.y)),
                        ),
                },
            ],
        }
    }

    /// Translates the calling `Mat3` object by a `Vec2<T>`.
    pub fn translate(&mut self, translation: Vec2<T>)
        ensures
            *final(self) == old(self).translated_spec(translation),
    {
        *self = self.translated(translation);
    }

    /// Adds `right` to the calling `Mat3`, entry by entry.
    pub fn add_assign(&mut self, right: Mat3<T>)
        ensures
            *final(self) == old(self).sum_spec(right),
    {
        *self = *self + right;
    }

    /// Subtracts `right` from the calling `Mat3`, entry by entry.
    pub fn sub_assign(&mut self, right: Mat3<T>)
        ensures
            *final(self) == old(self).difference_spec(right),
    {
        *self = *self - right;
    }

    /// Replaces the calling `Mat3` by its product with `right`.
    pub fn mul_assign(&mut self, right: Mat3<T>)
        ensures
            *final(self) == old(self).product_spec(right),
    {
        *self = *self * right;
    }
}

impl<T: Scalar> From<T> for Mat3<T> {
    fn from(value: T) -> (m: Mat3<T>) {
        Mat3 {
            rows: [
                Vec3 {
                    x: value,
                    y: T::zero(),
                    z: T::zero(),
                },
                Vec3 {
                    x: T::zero(),
                    y: value,
                    z: T::zero(),
                },
                Vec3 {
                    x: T::zero(),
                    y: T::zero(),
                    z: value,
                },
            ],
        }
    }
}

impl<T: Scalar> FromSpecImpl<T> for Mat3<T> {
    open spec fn obeys_from_spec() -> bool {
        true
    }

    open spec fn from_spec(value: T) -> Mat3<T> {
        Mat3::diagonal_spec(value)
    }
}

impl<T: Scalar> Mul<Mat3<T>> for Mat3<T> {
    type Output = Mat3<T>;

    /// The product of two matrices.
    fn mul(self, right: Mat3<T>) -> (m: Mat3<T>) {
        Mat3 {
            rows: [
                Vec3 {
                    x: self.product_entry(&right, 0, 0),
                    y: self.product_entry(&right, 0, 1),
                    z: self.product_entry(&right, 0, 2),
                },
                Vec3 {
                    x: self.product_entry(&right, 1, 0),
                    y: self.product_entry(&right, 1, 1),
                    z: self.product_entry(&right, 1, 2),
                },
                Vec3 {
                    x: self.product_entry(&right, 2, 0),
                    y: self.product_entry(&right, 2, 1),
                    z: self.product_entry(&right, 2, 2),
                },
            ],
        }
    }
}

impl<T: Scalar> MulSpecImpl<Mat3<T>> for Mat3<T> {
    open spec fn obeys_mul_spec() -> bool {
        true
    }

    open spec fn mul_req(self, right: Mat3<T>) -> bool {
        true
    }

    open spec fn mul_spec(self, right: Mat3<T>) -> Mat3<T> {
        self.product_spec(right)
    }
}

impl<T> From<((T, T, T), (T, T, T), (T, T, T))> for Mat3<T> {
    fn from(tuple: ((T, T, T), (T, T, T), (T, T, T))) -> (m: Mat3<T>) {
        Mat3 {
            rows: [
                Vec3 { x: tuple.0.0, y: tuple.0.1, z: tuple.0.2 },
                Vec3 { x: tuple.1.0, y: tuple.1.1, z: tuple.1.2 },
                Vec3 { x: tuple.2.0, y: tuple.2.1, z: tuple.2.2 },
            ],
        }
    }
}

impl<T> FromSpecImpl<((T, T, T), (T, T, T), (T, T, T))> for Mat3<T> {
    open spec fn obeys_from_spec() -> bool {
        true
    }

    open spec fn from_spec(tuple: ((T, T, T), (T, T, T), (T, T, T))) -> Mat3<T> {
        Mat3 {
            rows: [
                Vec3 { x: tuple.0.0, y: tuple.0.1, z: tuple.0.2 },
                Vec3 { x: tuple.1.0, y: tuple.1.1, z: tuple.1.2 },
                Vec3 { x: tuple.2.0, y: tuple.2.1, z: tuple.2.2 },
            ],
        }
    }
}

impl<T> From<(T, T, T, T, T, T, T, T, T)> for Mat3<T> {
    fn from(tuple: (T, T, T, T, T, T, T, T, T)) -> (m: Mat3<T>) {
        Mat3 {
            rows: [
                Vec3 { x: tuple.0, y: tuple.1, z: tuple.2 },
                Vec3 { x: tuple.3, y: tuple.4, z: tuple.5 },
                Vec3 { x: tuple.6, y: tuple.7, z: tuple.8 },
            ],
        }
    }
}

impl<T> FromSpecImpl<(T, T, T, T, T, T, T, T, T)> for Mat3<T> {
    open spec fn obeys_from_spec() -> bool {
        true
    }

    open spec fn from_spec(tuple: (T, T, T, T, T, T, T, T, T)) -> Mat3<T> {
        Mat3 {
            rows: [
                Vec3 { x: tuple.0, y: tuple.1, z: tuple.2 },
                Vec3 { x: tuple.3, y: tuple.4, z: tuple.5 },
                Vec3 { x: tuple.6, y: tuple.7, z: tuple.8 },
            ],
        }
    }
}

impl<T: Copy> From<[T; 9]> for Mat3<T> {
    fn from(slice: [T; 9]) -> (m: Mat3<T>) {
        Mat3 {
            rows: [
                Vec3 { x: slice[0], y: slice[1], z: slice[2] },
                Vec3 { x: slice[3], y: slice[4], z: slice[5] },
                Vec3 { x: slice[6], y: slice[7], z: slice[8] },
            ],
        }
    }
}

impl<T: Copy> FromSpecImpl<[T; 9]> for Mat3<T> {
    open spec fn obeys_from_spec() -> bool {
        true
    }

    open spec fn from_spec(slice: [T; 9]) -> Mat3<T> {
        Mat3 {
            rows: [
                Vec3 { x: slice[0], y: slice[1], z: slice[2] },
                Vec3 { x: slice[3], y: slice[4], z: slice[5] },
                Vec3 { x: slice[6], y: slice[7], z: slice[8] },
            ],
        }
    }
}

impl<T> From<(Vec3<T>, Vec3<T>, Vec3<T>)> for Mat3<T> {
    fn from(tuple: (Vec3<T>, Vec3<T>, Vec3<T>)) -> (m: Mat3<T>) {
        Mat3 {
            rows: [
                Vec3 { x: tuple.0.x, y: tuple.0.y, z: tuple.0.z },
                Vec3 { x: tuple.1.x, y: tuple.1.y, z: tuple.1.z },
                Vec3 { x: tuple.2.x, y: tuple.2.y, z: tuple.2.z },
            ],
        }
    }
}

impl<T> FromSpecImpl<(Vec3<T>, Vec3<T>, Vec3<T>)> for Mat3<T> {
    open spec fn obeys_from_spec() -> bool {
        true
    }

    open spec fn from_spec(tuple: (Vec3<T>, Vec3<T>, Vec3<T>)) -> Mat3<T> {
        Mat3 {
            rows: [
                Vec3 { x: tuple.0.x, y: tuple.0.y, z: tuple.0.z },
                Vec3 { x: tuple.1.x, y: tuple.1.y, z: tuple.1.z },
                Vec3 { x: tuple.2.x, y: tuple.2.y, z: tuple.2.z },
            ],
        }
    }
}

impl<T: Real> Mat3<T> {
    /// The rotation matrix of the angle `radians`: its cosine on the diagonal of the upper
    /// left 2x2 block, its sine below and the negated sine above.
    pub open spec fn rotation_spec(radians: T) -> Mat3<T> {
        let sin = radians.sin_spec();
        let cos = radians.cos_spec();
        Mat3 {
            rows: [
                Vec3 {
                    x: cos,
                    y: sin.negated_spec(),
                    z: T::zero_value(),
                },
                Vec3 {
                    x: sin,
                    y: cos,
                    z: T::zero_value(),
                },
                Vec3 {
                    x: T::zero_value(),
                    y: T::zero_value(),
                    z: T::one_value(),
                },
            ],
        }
    }

    /// Constructs a 3x3 rotation matrix from a radians value.
    pub fn rotation(radians: T) -> (m: Mat3<T>)
        ensures
            m == Mat3::rotation_spec(radians),
    {
        let sin = radians.sin();
        let cos = radians.cos();
        Mat3 {
            rows: [
                Vec3 {
                    x: cos,
                    y: sin.negated(),
                    z: T::zero(),
                },
                Vec3 {
                    x: sin,
                    y: cos,
                    z: T::zero(),
                },
                Vec3 {
                    x: T::zero(),
                    y: T::zero(),
                    z: T::one(),
                },
            ],
        }
    }

    /// Calculates and returns a `Mat3` object representing the calling `Mat3` object
    /// rotated by a radians value.
    pub fn rotated(&self, radians: T) -> (m: Mat3<T>)
        ensures
            m == self.product_spec(Mat3::rotation_spec(radians)),
    {
        *self * Mat3::rotation(radians)
    }

    /// Rotates the calling `Mat3` object by a radians value.
    pub fn rotate(&mut self, radians: T)
        ensures
            *final(self) == old(self).product_spec(Mat3::rotation_spec(radians)),
    {
        *self = self.rotated(radians);
    }
}

/// In exact arithmetic the solver solves the system: where every pivot of
/// the factorization is other than zero, as it is for a matrix of full rank,
/// the product of the matrix `a` and the vector `x` that the solver yields
/// for `b` is `b`. Nothing of the kind is stated for rounding arithmetic.
pub proof fn exact_solution_solves<T: Scalar>(a: Mat3<T>, b: Vec3<T>, x: Vec3<T>)
    requires
        is_exact::<T>(),
        has_nonzero_pivots(a@, pivot_permutation(a@)),
        x@ == lu_solution(a@, b@),
    ensures
        a.apply_spec(x) == b,
{
    reveal_with_fuel(sum_to, 4);
    lu_solution_solves(a@, b@);
    let product = times_vector(a@, x@);
    assert(product[0] == sum_to(row_terms(a@, x@, 0), 3));
    plus_zero(a@[0][0].times_spec(x@[0]));
    assert(product[1] == sum_to(row_terms(a@, x@, 1), 3));
    plus_zero(a@[1][0].times_spec(x@[0]));
    assert(product[2] == sum_to(row_terms(a@, x@, 2), 3));
    plus_zero(a@[2][0].times_spec(x@[0]));
}

} // verus!
