use crate::decomposition::{
    lu_solution, pivot_permutation, Dimensional, SquareMatrix, Vector, Zero, LU,
};
use crate::exact::{
    has_nonzero_pivots, is_exact, lu_solution_solves, plus_zero, row_terms, sum_to, times_vector,
};
use crate::scalar::{Real, Scalar};
use crate::vec3::Vec3;
use crate::vec4::Vec4;
use std::ops::{Add, Index, Mul, Sub};
use vstd::prelude::*;
use vstd::std_specs::convert::FromSpecImpl;
use vstd::std_specs::ops::{AddSpecImpl, MulSpecImpl, SubSpecImpl};

verus! {

/// A 4x4-component Euclidean matrix.
#[derive(Clone, Copy, Debug, PartialEq)]
pub struct Mat4<T> {
    /// The four rows of the matrix.
    pub rows: [Vec4<T>; 4],
}

impl<T> View for Mat4<T> {
    type V = Seq<Seq<T>>;

    open spec fn view(&self) -> Seq<Seq<T>> {
        Seq::new(4, |r: int| self.rows[r]@)
    }
}

impl<T: Scalar> Mat4<T> {
    /// The product of the matrix and a column vector: component `i` is the
    /// dot product of row `i` and `vec`.
    pub open spec fn apply_spec(self, vec: Vec4<T>) -> Vec4<T> {
        Vec4 {
            x: self.rows[0].dot_spec(vec),
            y: self.rows[1].dot_spec(vec),
            z: self.rows[2].dot_spec(vec),
            w: self.rows[3].dot_spec(vec),
        }
    }

    /// Constructs a 4x4 identity matrix.
    pub fn identity() -> (m: Mat4<T>)
        ensures
            m == Mat4::diagonal_spec(T::one_value()),
    {
        Mat4 {
            rows: [
                Vec4 { x: T::one(), y: T::zero(), z: T::zero(), w: T::zero() },
                Vec4 { x: T::zero(), y: T::one(), z: T::zero(), w: T::zero() },
                Vec4 { x: T::zero(), y: T::zero(), z: T::one(), w: T::zero() },
                Vec4 { x: T::zero(), y: T::zero(), z: T::zero(), w: T::one() },
            ],
        }
    }

    /// The matrix mirrored at its diagonal: rows become columns.
    pub open spec fn transposed_spec(self) -> Mat4<T> {
        Mat4::from_entries(|r: int, c: int| self@[c][r])
    }

    /// Extracts and returns a transposed representation of the calling
    /// `Mat4` object.
    pub fn transposed(&self) -> (m: Mat4<T>)
        ensures
            m == self.transposed_spec(),
    {
        Mat4 {
            rows: [
                Vec4 { x: self.rows[0].x, y: self.rows[1].x, z: self.rows[2].x, w: self.rows[3].x },
                Vec4 { x: self.rows[0].y, y: self.rows[1].y, z: self.rows[2].y, w: self.rows[3].y },
                Vec4 { x: self.rows[0].z, y: self.rows[1].z, z: self.rows[2].z, w: self.rows[3].z },
                Vec4 { x: self.rows[0].w, y: self.rows[1].w, z: self.rows[2].w, w: self.rows[3].w },
            ],
        }
    }

    /// Performs an in-place transposition of the calling `Mat4` object.
    pub fn transpose(&mut self)
        ensures
            *final(self) == old(self).transposed_spec(),
    {
        *self = self.transposed();
    }
}

impl<T: Scalar> Default for Mat4<T> {
    /// Returns the identity matrix.
    fn default() -> (m: Mat4<T>)
        ensures
            m == Mat4::diagonal_spec(T::one_value()),
    {
        Mat4::identity()
    }
}

impl<T: Copy> From<[Vec4<T>; 4]> for Mat4<T> {
    fn from(slice: [Vec4<T>; 4]) -> (m: Mat4<T>) {
        Mat4 { rows: [slice[0], slice[1], slice[2], slice[3]] }
    }
}

impl<T: Copy> FromSpecImpl<[Vec4<T>; 4]> for Mat4<T> {
    open spec fn obeys_from_spec() -> bool {
        true
    }

    open spec fn from_spec(slice: [Vec4<T>; 4]) -> Mat4<T> {
        Mat4 { rows: [slice[0], slice[1], slice[2], slice[3]] }
    }
}

impl<T: Copy> From<[[T; 4]; 4]> for Mat4<T> {
    fn from(slice: [[T; 4]; 4]) -> (m: Mat4<T>) {
        Mat4 {
            rows: [
                Vec4 { x: slice[0][0], y: slice[0][1], z: slice[0][2], w: slice[0][3] },
                Vec4 { x: slice[1][0], y: slice[1][1], z: slice[1][2], w: slice[1][3] },
                Vec4 { x: slice[2][0], y: slice[2][1], z: slice[2][2], w: slice[2][3] },
                Vec4 { x: slice[3][0], y: slice[3][1], z: slice[3][2], w: slice[3][3] },
            ],
        }
    }
}

impl<T: Copy> FromSpecImpl<[[T; 4]; 4]> for Mat4<T> {
    open spec fn obeys_from_spec() -> bool {
        true
    }

    open spec fn from_spec(slice: [[T; 4]; 4]) -> Mat4<T> {
        Mat4 {
            rows: [
                Vec4 { x: slice[0][0], y: slice[0][1], z: slice[0][2], w: slice[0][3] },
                Vec4 { x: slice[1][0], y: slice[1][1], z: slice[1][2], w: slice[1][3] },
                Vec4 { x: slice[2][0], y: slice[2][1], z: slice[2][2], w: slice[2][3] },
                Vec4 { x: slice[3][0], y: slice[3][1], z: slice[3][2], w: slice[3][3] },
            ],
        }
    }
}

impl<T: Scalar> Add for Mat4<T> {
    type Output = Mat4<T>;

    /// The sum of two matrices, entry by entry.
    fn add(self, right: Mat4<T>) -> (m: Mat4<T>) {
        Mat4 {
            rows: [
                self.rows[0] + right.rows[0],
                self.rows[1] + right.rows[1],
                self.rows[2] + right.rows[2],
                self.rows[3] + right.rows[3],
            ],
        }
    }
}

impl<T: Scalar> AddSpecImpl for Mat4<T> {
    open spec fn obeys_add_spec() -> bool {
        true
    }

    open spec fn add_req(self, right: Mat4<T>) -> bool {
        true
    }

    open spec fn add_spec(self, right: Mat4<T>) -> Mat4<T> {
        self.sum_spec(right)
    }
}

impl<T: Scalar> Sub for Mat4<T> {
    type Output = Mat4<T>;

    /// The difference of two matrices, entry by entry.
    fn sub(self, right: Mat4<T>) -> (m: Mat4<T>) {
        Mat4 {
            rows: [
                self.rows[0] - right.rows[0],
                self.rows[1] - right.rows[1],
                self.rows[2] - right.rows[2],
                self.rows[3] - right.rows[3],
            ],
        }
    }
}

impl<T: Scalar> SubSpecImpl for Mat4<T> {
    open spec fn obeys_sub_spec() -> bool {
        true
    }

    open spec fn sub_req(self, right: Mat4<T>) -> bool {
        true
    }

    open spec fn sub_spec(self, right: Mat4<T>) -> Mat4<T> {
        self.difference_spec(right)
    }
}

impl<T: Scalar> Mul<Vec4<T>> for Mat4<T> {
    type Output = Vec4<T>;

    /// The product of the matrix and a column vector.
    fn mul(self, vec: Vec4<T>) -> (v: Vec4<T>) {
        Vec4 {
            x: self.rows[0].dot(vec),
            y: self.rows[1].dot(vec),
            z: self.rows[2].dot(vec),
            w: self.rows[3].dot(vec),
        }
    }
}

impl<T: Scalar> MulSpecImpl<Vec4<T>> for Mat4<T> {
    open spec fn obeys_mul_spec() -> bool {
        true
    }

    open spec fn mul_req(self, vec: Vec4<T>) -> bool {
        true
    }

    open spec fn mul_spec(self, vec: Vec4<T>) -> Vec4<T> {
        self.apply_spec(vec)
    }
}

impl<T> Index<usize> for Mat4<T> {
    type Output = Vec4<T>;

    /// The row at `index`, counted from zero.
    fn index(&self, index: usize) -> (row: &Vec4<T>)
        ensures
            row@ == self@[index as int],
    {
        &self.rows[index]
    }
}

impl<T> vstd::std_specs::core::IndexSpecImpl<usize> for Mat4<T> {
    open spec fn index_req(&self, index: &usize) -> bool {
        *index < 4
    }
}

impl<T> Dimensional for Mat4<T> {
    open spec fn dimension_spec() -> usize {
        4
    }

    fn dimension() -> (n: usize) {
        4
    }
}

impl<T: Scalar> Zero for Mat4<T> {
    open spec fn zero_spec() -> Self {
        Mat4 {
            rows: [
                Vec4 {
                    x: T::zero_value(),
                    y: T::zero_value(),
                    z: T::zero_value(),
                    w: T::zero_value(),
                },
                Vec4 {
                    x: T::zero_value(),
                    y: T::zero_value(),
                    z: T::zero_value(),
                    w: T::zero_value(),
                },
                Vec4 {
                    x: T::zero_value(),
                    y: T::zero_value(),
                    z: T::zero_value(),
                    w: T::zero_value(),
                },
                Vec4 {
                    x: T::zero_value(),
                    y: T::zero_value(),
                    z: T::zero_value(),
                    w: T::zero_value(),
                },
            ],
        }
    }

    fn zero() -> (z: Self) {
        Mat4 {
            rows: [
                Vec4 { x: T::zero(), y: T::zero(), z: T::zero(), w: T::zero() },
                Vec4 { x: T::zero(), y: T::zero(), z: T::zero(), w: T::zero() },
                Vec4 { x: T::zero(), y: T::zero(), z: T::zero(), w: T::zero() },
                Vec4 { x: T::zero(), y: T::zero(), z: T::zero(), w: T::zero() },
            ],
        }
    }
}

impl<T: Scalar> SquareMatrix<T> for Mat4<T> {
    proof fn shape(&self) {
    }

    proof fn zero_entries() {
    }

    fn identity() -> (m: Self) {
        Mat4::identity()
    }

    fn at(&self, row: usize, col: usize) -> (v: T) {
        self.rows[row].get(col)
    }

    fn put(&mut self, row: usize, col: usize, v: T) {
        let mut changed = self.rows[row];
        changed.set(col, v);
        self.rows[row] = changed;
        assert(self@ =~~= old(self)@.update(
            row as int,
            old(self)@[row as int].update(col as int, v),
        ));
    }
}

impl<T: Scalar> LU<T, Vec4<T>> for Mat4<T> {
    proof fn same_dimension() {
        assert(Vec4::<T>::dimension_spec() == 4);
        assert(Mat4::<T>::dimension_spec() == 4);
    }
}

impl<T: Scalar> Mat4<T> {
    /// The matrix whose entry at `r` and `c` is `f(r, c)`.
    pub open spec fn from_entries(f: spec_fn(int, int) -> T) -> Mat4<T> {
        Mat4 {
            rows: [
                Vec4 { x: f(0, 0), y: f(0, 1), z: f(0, 2), w: f(0, 3) },
                Vec4 { x: f(1, 0), y: f(1, 1), z: f(1, 2), w: f(1, 3) },
                Vec4 { x: f(2, 0), y: f(2, 1), z: f(2, 2), w: f(2, 3) },
                Vec4 { x: f(3, 0), y: f(3, 1), z: f(3, 2), w: f(3, 3) },
            ],
        }
    }

    /// The sum of two matrices, entry by entry.
    pub open spec fn sum_spec(self, right: Mat4<T>) -> Mat4<T> {
        Mat4::from_entries(|r: int, c: int| self@[r][c].plus_spec(right@[r][c]))
    }

    /// The difference of two matrices, entry by entry.
    pub open spec fn difference_spec(self, right: Mat4<T>) -> Mat4<T> {
        Mat4::from_entries(|r: int, c: int| self@[r][c].minus_spec(right@[r][c]))
    }

    /// The matrix with `value` on the diagonal and zeros elsewhere.
    pub open spec fn diagonal_spec(value: T) -> Mat4<T> {
        Mat4::from_entries(
            |r: int, c: int|
                if r == c {
                    value
                } else {
                    T::zero_value()
                },
        )
    }

    /// The entry at `r` and `c` of the matrix product of `self` and `right`: it sums the
    /// products of row `r` of `self` with column `c` of `right`, from the left.
    pub open spec fn product_entry_spec(self, right: Mat4<T>, r: int, c: int) -> T {
        self@[r][0].times_spec(right@[0][c])
            .plus_spec(self@[r][1].times_spec(right@[1][c]))
            .plus_spec(self@[r][2].times_spec(right@[2][c]))
            .plus_spec(self@[r][3].times_spec(right@[3][c]))
    }

    /// The matrix of the entries that `product_entry_spec` gives.
    pub open spec fn product_spec(self, right: Mat4<T>) -> Mat4<T> {
        Mat4::from_entries(|r: int, c: int| self.product_entry_spec(right, r, c))
    }

    fn product_entry(&self, right: &Mat4<T>, r: usize, c: usize) -> (v: T)
        requires
            r < 4,
            c < 4,
        ensures
            v == self.product_entry_spec(*right, r as int, c as int),
    {
        self.at(r, 0).times(right.at(0, c))
            .plus(self.at(r, 1).times(right.at(1, c)))
            .plus(self.at(r, 2).times(right.at(2, c)))
            .plus(self.at(r, 3).times(right.at(3, c)))
    }

    /// The matrix with each of the first three rows multiplied by the component of `factor` of the
    /// row's position.
    pub open spec fn scaled_spec(self, factor: Vec3<T>) -> Mat4<T> {
        Mat4::from_entries(
            |r: int, c: int|
                if r < 3 {
                    self@[r][c].times_spec(factor@[r])
                } else {
                    self@[r][c]
                },
        )
    }

    /// Calculates and returns a `Mat4` object representing the calling `Mat4` object scaled
    /// by a `Vec3<T>`.
    pub fn scaled(&self, factor: Vec3<T>) -> (m: Mat4<T>)
        ensures
            m == self.scaled_spec(factor),
    {
        Mat4 {
            rows: [
                Vec4 {
                    x: self.rows[0].x.times(factor.x),
                    y: self.rows[0].y.times(factor.x),
                    z: self.rows[0].z.times(factor.x),
                    w: self.rows[0].w.times(factor.x),
                },
                Vec4 {
                    x: self.rows[1].x.times(factor.y),
                    y: self.rows[1].y.times(factor.y),
                    z: self.rows[1].z.times(factor.y),
                    w: self.rows[1].w.times(factor.y),
                },
                Vec4 {
                    x: self.rows[2].x.times(factor.z),
                    y: self.rows[2].y.times(factor.z),
                    z: self.rows[2].z.times(factor.z),
                    w: self.rows[2].w.times(factor.z),
                },
                Vec4 {
                    x: self.rows[3].x,
                    y: self.rows[3].y,
                    z: self.rows[3].z,
                    w: self.rows[3].w,
                },
            ],
        }
    }

    /// Scales the calling `Mat4` object by a `Vec3<T>`.
    pub fn scale(&mut self, factor: Vec3<T>)
        ensures
            *final(self) == old(self).scaled_spec(factor),
    {
        *self = self.scaled(factor);
    }

    /// The matrix with the products of its other rows and the components of `translation`,
    /// summed from the left, added to its last row.
    pub open spec fn translated_spec(self, translation: Vec3<T>) -> Mat4<T> {
        Mat4::from_entries(
            |r: int, c: int|
                if r == 3 {
                    self@[r][c].plus_spec(
                        self@[0][c].times_spec(translation@[0])
                            .plus_spec(self@[1][c].times_spec(translation@[1]))
                            .plus_spec(self@[2][c].times_spec(translation@[2])),
                    )
                } else {
                    self@[r][c]
                },
        )
    }

    /// Calculates and returns a `Mat4` object representing the calling `Mat4` object
    /// translated by a `Vec3<T>`.
    pub fn translated(&self, translation: Vec3<T>) -> (m: Mat4<T>)
        ensures
            m == self.translated_spec(translation),
    {
        Mat4 {
            rows: [
                Vec4 {
                    x: self.rows[0].x,
                    y: self.rows[0].y,
                    z: self.rows[0].z,
                    w: self.rows[0].w,
                },
                Vec4 {
                    x: self.rows[1].x,
                    y: self.rows[1].y,
                    z: self.rows[1].z,
                    w: self.rows[1].w,
                },
                Vec4 {
                    x: self.rows[2].x,
                    y: self.rows[2].y,
                    z: self.rows[2].z,
                    w: self.rows[2].w,
                },
                Vec4 {
                    x: self.rows[3].x
                        .plus(
                            self.rows[0].x
                                .times(translation.x)
                                .plus(self.rows[1].x.times(translation.y))
                                .plus(self.rows[2].x.times(translation.z)),
                        ),
                    y: self.rows[3].y
                        .plus(
                            self.rows[0].y
                                .times(translation.x)
                                .plus(self.rows[1].y.times(translation.y))
                                .plus(self.rows[2].y.times(translation.z)),
                        ),
                    z: self.rows[3].z
                        .plus(
                            self.rows[0].z
                                .times(translation.x)
                                .plus(self.rows[1].z.times(translation.y))
                                .plus(self.rows[2].z.times(translation.z)),
                        ),
                    w: self.rows[3].w
                        .plus(
                            self.rows[0].w
                                .times(translation.x)
                                .plus(self.rows[1].w.times(translation.y))
                                .plus(self.rows[2].w.times(translation.z)),
                        ),
                },
            ],
        }
    }

    /// Translates the calling `Mat4` object by a `Vec3<T>`.
    pub fn translate(&mut self, translation: Vec3<T>)
        ensures
            *final(self) == old(self).translated_spec(translation),
    {
        *self = self.translated(translation);
    }

    /// Adds `right` to the calling `Mat4`, entry by entry.
    pub fn add_assign(&mut self, right: Mat4<T>)
        ensures
            *final(self) == old(self).sum_spec(right),
    {
        *self = *self + right;
    }

    /// Subtracts `right` from the calling `Mat4`, entry by entry.
    pub fn sub_assign(&mut self, right: Mat4<T>)
        ensures
            *final(self) == old(self).difference_spec(right),
    {
        *self = *self - right;
    }

    /// Replaces the calling `Mat4` by its product with `right`.
    pub fn mul_assign(&mut self, right: Mat4<T>)
        ensures
            *final(self) == old(self).product_spec(right),
    {
        *self = *self * right;
    }

    /// The left vector of the matrix: the first three entries of column 0.
    pub open spec fn left_vector_spec(self) -> Vec3<T> {
        Vec3 {
            x: self.rows[0].x,
            y: self.rows[1].x,
            z: self.rows[2].x,
        }
    }

    /// Extracts and returns the left vector from the calling `Mat4` object.
    pub fn get_left_vector(&self) -> (v: Vec3<T>)
        ensures
            v == self.left_vector_spec(),
    {
        Vec3 {
            x: self.rows[0].x,
            y: self.rows[1].x,
            z: self.rows[2].x,
        }
    }

    /// The right vector of the matrix: the negated first three entries of column 0.
    pub open spec fn right_vector_spec(self) -> Vec3<T> {
        Vec3 {
            x: self.rows[0].x.negated_spec(),
            y: self.rows[1].x.negated_spec(),
            z: self.rows[2].x.negated_spec(),
        }
    }

    /// Extracts and returns the right vector from the calling `Mat4` object.
    pub fn get_right_vector(&self) -> (v: Vec3<T>)
        ensures
            v == self.right_vector_spec(),
    {
        Vec3 {
            x: self.rows[0].x.negated(),
            y: self.rows[1].x.negated(),
            z: self.rows[2].x.negated(),
        }
    }

    /// The up vector of the matrix: the first three entries of column 1.
    pub open spec fn up_vector_spec(self) -> Vec3<T> {
        Vec3 {
            x: self.rows[0].y,
            y: self.rows[1].y,
            z: self.rows[2].y,
        }
    }

    /// Extracts and returns the up vector from the calling `Mat4` object.
    pub fn get_up_vector(&self) -> (v: Vec3<T>)
        ensures
            v == self.up_vector_spec(),
    {
        Vec3 {
            x: self.rows[0].y,
            y: self.rows[1].y,
            z: self.rows[2].y,
        }
    }

    /// The down vector of the matrix: the negated first three entries of column 1.
    pub open spec fn down_vector_spec(self) -> Vec3<T> {
        Vec3 {
            x: self.rows[0].y.negated_spec(),
            y: self.rows[1].y.negated_spec(),
            z: self.rows[2].y.negated_spec(),
        }
    }

    /// Extracts and returns the down vector from the calling `Mat4` object.
    pub fn get_down_vector(&self) -> (v: Vec3<T>)
        ensures
            v == self.down_vector_spec(),
    {
        Vec3 {
            x: self.rows[0].y.negated(),
            y: self.rows[1].y.negated(),
            z: self.rows[2].y.negated(),
        }
    }

    /// The backward vector of the matrix: the first three entries of column 2.
    pub open spec fn backward_vector_spec(self) -> Vec3<T> {
        Vec3 {
            x: self.rows[0].z,
            y: self.rows[1].z,
            z: self.rows[2].z,
        }
    }

    /// Extracts and returns the backward vector from the calling `Mat4` object.
    pub fn get_backward_vector(&self) -> (v: Vec3<T>)
        ensures
            v == self.backward_vector_spec(),
    {
        Vec3 {
            x: self.rows[0].z,
            y: self.rows[1].z,
            z: self.rows[2].z,
        }
    }

    /// The forward vector of the matrix: the negated first three entries of column 2.
    pub open spec fn forward_vector_spec(self) -> Vec3<T> {
        Vec3 {
            x: self.rows[0].z.negated_spec(),
            y: self.rows[1].z.negated_spec(),
            z: self.rows[2].z.negated_spec(),
        }
    }

    /// Extracts and returns the forward vector from the calling `Mat4` object.
    pub fn get_forward_vector(&self) -> (v: Vec3<T>)
        ensures
            v == self.forward_vector_spec(),
    {
        Vec3 {
            x: self.rows[0].z.negated(),
            y: self.rows[1].z.negated(),
            z: self.rows[2].z.negated(),
        }
    }

    /// The product of four entries, one of each column from the first to the
    /// last, taken from the rows `a`, `b`, `c` and `d`.
    pub open spec fn quad_spec(self, a: int, b: int, c: int, d: int) -> T {
        self@[a][0].times_spec(self@[b][1]).times_spec(self@[c][2]).times_spec(self@[d][3])
    }

    /// The determinant, expanded into its twenty-four signed products of four
    /// entries, one of each row and column, summed from the left.
    pub open spec fn determinant_spec(self) -> T {
        self.quad_spec(3, 2, 1, 0)
            .minus_spec(self.quad_spec(2, 3, 1, 0))
            .minus_spec(self.quad_spec(3, 1, 2, 0))
            .plus_spec(self.quad_spec(1, 3, 2, 0))
            .plus_spec(self.quad_spec(2, 1, 3, 0))
            .minus_spec(self.quad_spec(1, 2, 3, 0))
            .minus_spec(self.quad_spec(3, 2, 0, 1))
            .plus_spec(self.quad_spec(2, 3, 0, 1))
            .plus_spec(self.quad_spec(3, 0, 2, 1))
            .minus_spec(self.quad_spec(0, 3, 2, 1))
            .minus_spec(self.quad_spec(2, 0, 3, 1))
            .plus_spec(self.quad_spec(0, 2, 3, 1))
            .plus_spec(self.quad_spec(3, 1, 0, 2))
            .minus_spec(self.quad_spec(1, 3, 0, 2))
            .minus_spec(self.quad_spec(3, 0, 1, 2))
            .plus_spec(self.quad_spec(0, 3, 1, 2))
            .plus_spec(self.quad_spec(1, 0, 3, 2))
            .minus_spec(self.quad_spec(0, 1, 3, 2))
            .minus_spec(self.quad_spec(2, 1, 0, 3))
            .plus_spec(self.quad_spec(1, 2, 0, 3))
            .plus_spec(self.quad_spec(2, 0, 1, 3))
            .minus_spec(self.quad_spec(0, 2, 1, 3))
            .minus_spec(self.quad_spec(1, 0, 2, 3))
            .plus_spec(self.quad_spec(0, 1, 2, 3))
    }

    fn quad(&self, a: usize, b: usize, c: usize, d: usize) -> (v: T)
        requires
            a < 4,
            b < 4,
            c < 4,
            d < 4,
        ensures
            v == self.quad_spec(a as int, b as int, c as int, d as int),
    {
        self.at(a, 0).times(self.at(b, 1)).times(self.at(c, 2)).times(self.at(d, 3))
    }

    /// Calculates and returns the determinant of the calling `Mat4` object.
    pub fn determinant(&self) -> (d: T)
        ensures
            d == self.determinant_spec(),
    {
        self.quad(3, 2, 1, 0)
            .minus(self.quad(2, 3, 1, 0))
            .minus(self.quad(3, 1, 2, 0))
            .plus(self.quad(1, 3, 2, 0))
            .plus(self.quad(2, 1, 3, 0))
            .minus(self.quad(1, 2, 3, 0))
            .minus(self.quad(3, 2, 0, 1))
            .plus(self.quad(2, 3, 0, 1))
            .plus(self.quad(3, 0, 2, 1))
            .minus(self.quad(0, 3, 2, 1))
            .minus(self.quad(2, 0, 3, 1))
            .plus(self.quad(0, 2, 3, 1))
            .plus(self.quad(3, 1, 0, 2))
            .minus(self.quad(1, 3, 0, 2))
            .minus(self.quad(3, 0, 1, 2))
            .plus(self.quad(0, 3, 1, 2))
            .plus(self.quad(1, 0, 3, 2))
            .minus(self.quad(0, 1, 3, 2))
            .minus(self.quad(2, 1, 0, 3))
            .plus(self.quad(1, 2, 0, 3))
            .plus(self.quad(2, 0, 1, 3))
            .minus(self.quad(0, 2, 1, 3))
            .minus(self.quad(1, 0, 2, 3))
            .plus(self.quad(0, 1, 2, 3))
    }

    /// The three indices of `0, .., 3` other than `k`, in rising order.
    pub open spec fn others(k: int) -> (int, int, int) {
        if k == 0 {
            (1, 2, 3)
        } else if k == 1 {
            (0, 2, 3)
        } else if k == 2 {
            (0, 1, 3)
        } else {
            (0, 1, 2)
        }
    }

    /// The determinant of the two rows `p` and `q` of the matrix within its
    /// columns `x` and `y`.
    pub open spec fn minor_spec(self, p: int, q: int, x: int, y: int) -> T {
        self@[p][x].times_spec(self@[q][y]).minus_spec(self@[p][y].times_spec(self@[q][x]))
    }

    /// The entry at `r` and `c` of the adjoint: the determinant of the matrix
    /// without its row `c` and its column `r`, expanded along the first of the
    /// columns left, and negated where `r + c` is odd.
    pub open spec fn cofactor_spec(self, r: int, c: int) -> T {
        let (a, b, d) = Self::others(c);
        let (x, y, z) = Self::others(r);
        let expanded = self@[a][x].times_spec(self.minor_spec(b, d, y, z)).minus_spec(
            self@[b][x].times_spec(self.minor_spec(a, d, y, z)),
        ).plus_spec(self@[d][x].times_spec(self.minor_spec(a, b, y, z)));
        if (r + c) % 2 == 0 {
            expanded
        } else {
            expanded.negated_spec()
        }
    }

    /// The adjoint of the matrix: the transposed matrix of its cofactors.
    pub open spec fn adjointed_spec(self) -> Mat4<T> {
        Mat4::from_entries(|r: int, c: int| self.cofactor_spec(r, c))
    }

    fn others_of(k: usize) -> (r: (usize, usize, usize))
        requires
            k < 4,
        ensures
            (r.0 as int, r.1 as int, r.2 as int) == Self::others(k as int),
            r.0 < 4,
            r.1 < 4,
            r.2 < 4,
    {
        if k == 0 {
            (1, 2, 3)
        } else if k == 1 {
            (0, 2, 3)
        } else if k == 2 {
            (0, 1, 3)
        } else {
            (0, 1, 2)
        }
    }

    fn minor(&self, p: usize, q: usize, x: usize, y: usize) -> (v: T)
        requires
            p < 4,
            q < 4,
            x < 4,
            y < 4,
        ensures
            v == self.minor_spec(p as int, q as int, x as int, y as int),
    {
        self.at(p, x).times(self.at(q, y)).minus(self.at(p, y).times(self.at(q, x)))
    }

    fn cofactor(&self, r: usize, c: usize) -> (v: T)
        requires
            r < 4,
            c < 4,
        ensures
            v == self.cofactor_spec(r as int, c as int),
    {
        let (a, b, d) = Self::others_of(c);
        let (x, y, z) = Self::others_of(r);
        let expanded = self.at(a, x).times(self.minor(b, d, y, z)).minus(
            self.at(b, x).times(self.minor(a, d, y, z)),
        ).plus(self.at(d, x).times(self.minor(a, b, y, z)));
        if (r + c) % 2 == 0 {
            expanded
        } else {
            expanded.negated()
        }
    }

    /// Calculates and returns the adjoint of the calling `Mat4` object.
    pub fn adjointed(&self) -> (m: Mat4<T>)
        ensures
            m == self.adjointed_spec(),
    {
        Mat4 {
            rows: [
                Vec4 {
                    x: self.cofactor(0, 0),
                    y: self.cofactor(0, 1),
                    z: self.cofactor(0, 2),
                    w: self.cofactor(0, 3),
                },
                Vec4 {
                    x: self.cofactor(1, 0),
                    y: self.cofactor(1, 1),
                    z: self.cofactor(1, 2),
                    w: self.cofactor(1, 3),
                },
                Vec4 {
                    x: self.cofactor(2, 0),
                    y: self.cofactor(2, 1),
                    z: self.cofactor(2, 2),
                    w: self.cofactor(2, 3),
                },
                Vec4 {
                    x: self.cofactor(3, 0),
                    y: self.cofactor(3, 1),
                    z: self.cofactor(3, 2),
                    w: self.cofactor(3, 3),
                },
            ],
        }
    }

    /// The adjoint with each entry divided by the determinant where the
    /// determinant is greater than zero, else the zero matrix.
    pub open spec fn inverted_spec(self) -> Mat4<T> {
        let determinant = self.determinant_spec();
        if T::zero_value().less_than_spec(determinant) {
            Mat4::from_entries(
                |r: int, c: int| self.adjointed_spec()@[r][c].over_spec(determinant),
            )
        } else {
            Mat4::diagonal_spec(T::zero_value())
        }
    }

    /// Calculates and returns the inverse of the calling `Mat4` object. A
    /// matrix whose determinant is not greater than zero has none here: the
    /// zero matrix is returned.
    pub fn inverted(&self) -> (m: Mat4<T>)
        ensures
            m == self.inverted_spec(),
    {
        let determinant = self.determinant();

        if T::zero().less_than(determinant) {
            let adjoint = self.adjointed();
            Mat4 {
                rows: [
                    Vec4 {
                        x: adjoint.rows[0].x.over(determinant),
                        y: adjoint.rows[0].y.over(determinant),
                        z: adjoint.rows[0].z.over(determinant),
                        w: adjoint.rows[0].w.over(determinant),
                    },
                    Vec4 {
                        x: adjoint.rows[1].x.over(determinant),
                        y: adjoint.rows[1].y.over(determinant),
                        z: adjoint.rows[1].z.over(determinant),
                        w: adjoint.rows[1].w.over(determinant),
                    },
                    Vec4 {
                        x: adjoint.rows[2].x.over(determinant),
                        y: adjoint.rows[2].y.over(determinant),
                        z: adjoint.rows[2].z.over(determinant),
                        w: adjoint.rows[2].w.over(determinant),
                    },
                    Vec4 {
                        x: adjoint.rows[3].x.over(determinant),
                        y: adjoint.rows[3].y.over(determinant),
                        z: adjoint.rows[3].z.over(determinant),
                        w: adjoint.rows[3].w.over(determinant),
                    },
                ],
            }
        } else {
            Mat4::from(T::zero())
        }
    }

    /// Inverts the calling `Mat4` object.
    pub fn invert(&mut self)
        ensures
            *final(self) == old(self).inverted_spec(),
    {
        *self = self.inverted();
    }
}

impl<T: Scalar> From<T> for Mat4<T> {
    fn from(value: T) -> (m: Mat4<T>) {
        Mat4 {
            rows: [
                Vec4 {
                    x: value,
                    y: T::zero(),
                    z: T::zero(),
                    w: T::zero(),
                },
                Vec4 {
                    x: T::zero(),
                    y: value,
                    z: T::zero(),
                    w: T::zero(),
                },
                Vec4 {
                    x: T::zero(),
                    y: T::zero(),
                    z: value,
                    w: T::zero(),
                },
                Vec4 {
                    x: T::zero(),
                    y: T::zero(),
                    z: T::zero(),
                    w: value,
                },
            ],
        }
    }
}

impl<T: Scalar> FromSpecImpl<T> for Mat4<T> {
    open spec fn obeys_from_spec() -> bool {
        true
    }

    open spec fn from_spec(value: T) -> Mat4<T> {
        Mat4::diagonal_spec(value)
    }
}

impl<T: Scalar> Mul<Mat4<T>> for Mat4<T> {
    type Output = Mat4<T>;

    /// The product of two matrices.
    fn mul(self, right: Mat4<T>) -> (m: Mat4<T>) {
        Mat4 {
            rows: [
                Vec4 {
                    x: self.product_entry(&right, 0, 0),
                    y: self.product_entry(&right, 0, 1),
                    z: self.product_entry(&right, 0, 2),
                    w: self.product_entry(&right, 0, 3),
                },
                Vec4 {
                    x: self.product_entry(&right, 1, 0),
                    y: self.product_entry(&right, 1, 1),
                    z: self.product_entry(&right, 1, 2),
                    w: self.product_entry(&right, 1, 3),
                },
                Vec4 {
                    x: self.product_entry(&right, 2, 0),
                    y: self.product_entry(&right, 2, 1),
                    z: self.product_entry(&right, 2, 2),
                    w: self.product_entry(&right, 2, 3),
                },
                Vec4 {
                    x: self.product_entry(&right, 3, 0),
                    y: self.product_entry(&right, 3, 1),
                    z: self.product_entry(&right, 3, 2),
                    w: self.product_entry(&right, 3, 3),
                },
            ],
        }
    }
}

impl<T: Scalar> MulSpecImpl<Mat4<T>> for Mat4<T> {
    open spec fn obeys_mul_spec() -> bool {
        true
    }

    open spec fn mul_req(self, right: Mat4<T>) -> bool {
        true
    }

    open spec fn mul_spec(self, right: Mat4<T>) -> Mat4<T> {
        self.product_spec(right)
    }
}

impl<T> From<((T, T, T, T), (T, T, T, T), (T, T, T, T), (T, T, T, T))> for Mat4<T> {
    fn from(tuple: ((T, T, T, T), (T, T, T, T), (T, T, T, T), (T, T, T, T))) -> (m: Mat4<T>) {
        Mat4 {
            rows: [
                Vec4 { x: tuple.0.0, y: tuple.0.1, z: tuple.0.2, w: tuple.0.3 },
                Vec4 { x: tuple.1.0, y: tuple.1.1, z: tuple.1.2, w: tuple.1.3 },
                Vec4 { x: tuple.2.0, y: tuple.2.1, z: tuple.2.2, w: tuple.2.3 },
                Vec4 { x: tuple.3.0, y: tuple.3.1, z: tuple.3.2, w: tuple.3.3 },
            ],
        }
    }
}

impl<T> FromSpecImpl<((T, T, T, T), (T, T, T, T), (T, T, T, T), (T, T, T, T))> for Mat4<T> {
    open spec fn obeys_from_spec() -> bool {
        true
    }

    open spec fn from_spec(
        tuple: ((T, T, T, T), (T, T, T, T), (T, T, T, T), (T, T, T, T)),
    ) -> Mat4<T> {
        Mat4 {
            rows: [
                Vec4 { x: tuple.0.0, y: tuple.0.1, z: tuple.0.2, w: tuple.0.3 },
                Vec4 { x: tuple.1.0, y: tuple.1.1, z: tuple.1.2, w: tuple.1.3 },
                Vec4 { x: tuple.2.0, y: tuple.2.1, z: tuple.2.2, w: tuple.2.3 },
                Vec4 { x: tuple.3.0, y: tuple.3.1, z: tuple.3.2, w: tuple.3.3 },
            ],
        }
    }
}

impl<T> From<(T, T, T, T, T, T, T, T, T, T, T, T, T, T, T, T)> for Mat4<T> {
    fn from(tuple: (T, T, T, T, T, T, T, T, T, T, T, T, T, T, T, T)) -> (m: Mat4<T>) {
        Mat4 {
            rows: [
                Vec4 { x: tuple.0, y: tuple.1, z: tuple.2, w: tuple.3 },
                Vec4 { x: tuple.4, y: tuple.5, z: tuple.6, w: tuple.7 },
                Vec4 { x: tuple.8, y: tuple.9, z: tuple.10, w: tuple.11 },
                Vec4 { x: tuple.12, y: tuple.13, z: tuple.14, w: tuple.15 },
            ],
        }
    }
}

impl<T> FromSpecImpl<(T, T, T, T, T, T, T, T, T, T, T, T, T, T, T, T)> for Mat4<T> {
    open spec fn obeys_from_spec() -> bool {
        true
    }

    open spec fn from_spec(tuple: (T, T, T, T, T, T, T, T, T, T, T, T, T, T, T, T)) -> Mat4<T> {
        Mat4 {
            rows: [
                Vec4 { x: tuple.0, y: tuple.1, z: tuple.2, w: tuple.3 },
                Vec4 { x: tuple.4, y: tuple.5, z: tuple.6, w: tuple.7 },
                Vec4 { x: tuple.8, y: tuple.9, z: tuple.10, w: tuple.11 },
                Vec4 { x: tuple.12, y: tuple.13, z: tuple.14, w: tuple.15 },
            ],
        }
    }
}

impl<T: Copy> From<[T; 16]> for Mat4<T> {
    fn from(slice: [T; 16]) -> (m: Mat4<T>) {
        Mat4 {
            rows: [
                Vec4 { x: slice[0], y: slice[1], z: slice[2], w: slice[3] },
                Vec4 { x: slice[4], y: slice[5], z: slice[6], w: slice[7] },
                Vec4 { x: slice[8], y: slice[9], z: slice[10], w: slice[11] },
                Vec4 { x: slice[12], y: slice[13], z: slice[14], w: slice[15] },
            ],
        }
    }
}

impl<T: Copy> FromSpecImpl<[T; 16]> for Mat4<T> {
    open spec fn obeys_from_spec() -> bool {
        true
    }

    open spec fn from_spec(slice: [T; 16]) -> Mat4<T> {
        Mat4 {
            rows: [
                Vec4 { x: slice[0], y: slice[1], z: slice[2], w: slice[3] },
                Vec4 { x: slice[4], y: slice[5], z: slice[6], w: slice[7] },
                Vec4 { x: slice[8], y: slice[9], z: slice[10], w: slice[11] },
                Vec4 { x: slice[12], y: slice[13], z: slice[14], w: slice[15] },
            ],
        }
    }
}

impl<T> From<(Vec4<T>, Vec4<T>, Vec4<T>, Vec4<T>)> for Mat4<T> {
    fn from(tuple: (Vec4<T>, Vec4<T>, Vec4<T>, Vec4<T>)) -> (m: Mat4<T>) {
        Mat4 {
            rows: [
                Vec4 { x: tuple.0.x, y: tuple.0.y, z: tuple.0.z, w: tuple.0.w },
                Vec4 { x: tuple.1.x, y: tuple.1.y, z: tuple.1.z, w: tuple.1.w },
                Vec4 { x: tuple.2.x, y: tuple.2.y, z: tuple.2.z, w: tuple.2.w },
                Vec4 { x: tuple.3.x, y: tuple.3.y, z: tuple.3.z, w: tuple.3.w },
            ],
        }
    }
}

impl<T> FromSpecImpl<(Vec4<T>, Vec4<T>, Vec4<T>, Vec4<T>)> for Mat4<T> {
    open spec fn obeys_from_spec() -> bool {
        true
    }

    open spec fn from_spec(tuple: (Vec4<T>, Vec4<T>, Vec4<T>, Vec4<T>)) -> Mat4<T> {
        Mat4 {
            rows: [
                Vec4 { x: tuple.0.x, y: tuple.0.y, z: tuple.0.z, w: tuple.0.w },
                Vec4 { x: tuple.1.x, y: tuple.1.y, z: tuple.1.z, w: tuple.1.w },
                Vec4 { x: tuple.2.x, y: tuple.2.y, z: tuple.2.z, w: tuple.2.w },
                Vec4 { x: tuple.3.x, y: tuple.3.y, z: tuple.3.z, w: tuple.3.w },
            ],
        }
    }
}

impl<T: Real> Mat4<T> {
    /// The rotation matrix of the angle `radians` around the unit vector of `axis`.
    pub open spec fn rotation_spec(radians: T, axis: Vec3<T>) -> Mat4<T> {
        let sin = radians.sin_spec();
        let cos = radians.cos_spec();
        let cos_m1 = T::one_value().minus_spec(cos);
        let axis = axis.normalized_spec();
        Mat4 {
            rows: [
                Vec4 {
                    x: axis.x.times_spec(axis.x).times_spec(cos_m1).plus_spec(cos),
                    y: axis.x
                        .times_spec(axis.y)
                        .times_spec(cos_m1)
                        .minus_spec(axis.z.times_spec(sin)),
                    z: axis.x
                        .times_spec(axis.z)
                        .times_spec(cos_m1)
                        .plus_spec(axis.y.times_spec(sin)),
                    w: T::zero_value(),
                },
                Vec4 {
                    x: axis.y
                        .times_spec(axis.x)
                        .times_spec(cos_m1)
                        .plus_spec(axis.z.times_spec(sin)),
                    y: axis.y.times_spec(axis.y).times_spec(cos_m1).plus_spec(cos),
                    z: axis.y
                        .times_spec(axis.z)
                        .times_spec(cos_m1)
                        .minus_spec(axis.x.times_spec(sin)),
                    w: T::zero_value(),
                },
                Vec4 {
                    x: axis.z
                        .times_spec(axis.x)
                        .times_spec(cos_m1)
                        .minus_spec(axis.y.times_spec(sin)),
                    y: axis.z
                        .times_spec(axis.y)
                        .times_spec(cos_m1)
                        .plus_spec(axis.x.times_spec(sin)),
                    z: axis.z.times_spec(axis.z).times_spec(cos_m1).plus_spec(cos),
                    w: T::zero_value(),
                },
                Vec4 {
                    x: T::zero_value(),
                    y: T::zero_value(),
                    z: T::zero_value(),
                    w: T::one_value(),
                },
            ],
        }
    }

    /// Constructs a 4x4 rotation matrix from a radians value and an axis vector.
    pub fn rotation(radians: T, axis: Vec3<T>) -> (m: Mat4<T>)
        ensures
            m == Mat4::rotation_spec(radians, axis),
    {
        let sin = radians.sin();
        let cos = radians.cos();
        let cos_m1 = T::one().minus(cos);
        let axis = axis.normalized();
        Mat4 {
            rows: [
                Vec4 {
                    x: axis.x.times(axis.x).times(cos_m1).plus(cos),
                    y: axis.x.times(axis.y).times(cos_m1).minus(axis.z.times(sin)),
                    z: axis.x.times(axis.z).times(cos_m1).plus(axis.y.times(sin)),
                    w: T::zero(),
                },
                Vec4 {
                    x: axis.y.times(axis.x).times(cos_m1).plus(axis.z.times(sin)),
                    y: axis.y.times(axis.y).times(cos_m1).plus(cos),
                    z: axis.y.times(axis.z).times(cos_m1).minus(axis.x.times(sin)),
                    w: T::zero(),
                },
                Vec4 {
                    x: axis.z.times(axis.x).times(cos_m1).minus(axis.y.times(sin)),
                    y: axis.z.times(axis.y).times(cos_m1).plus(axis.x.times(sin)),
                    z: axis.z.times(axis.z).times(cos_m1).plus(cos),
                    w: T::zero(),
                },
                Vec4 {
                    x: T::zero(),
                    y: T::zero(),
                    z: T::zero(),
                    w: T::one(),
                },
            ],
        }
    }

    /// Calculates and returns a `Mat4` object representing the calling `Mat4` object
    /// rotated by a radians value and an axis vector.
    pub fn rotated(&self, radians: T, axis: Vec3<T>) -> (m: Mat4<T>)
        ensures
            m == self.product_spec(Mat4::rotation_spec(radians, axis)),
    {
        *self * Mat4::rotation(radians, axis)
    }

    /// Rotates the calling `Mat4` object by a radians value and an axis vector.
    pub fn rotate(&mut self, radians: T, axis: Vec3<T>)
        ensures
            *final(self) == old(self).product_spec(Mat4::rotation_spec(radians, axis)),
    {
        *self = self.rotated(radians, axis);
    }
}

/// In exact arithmetic the solver solves the system: where every pivot of
/// the factorization is other than zero, as it is for a matrix of full rank,
/// the product of the matrix `a` and the vector `x` that the solver yields
/// for `b` is `b`. Nothing of the kind is stated for rounding arithmetic.
pub proof fn exact_solution_solves<T: Scalar>(a: Mat4<T>, b: Vec4<T>, x: Vec4<T>)
    requires
        is_exact::<T>(),
        has_nonzero_pivots(a@, pivot_permutation(a@)),
        x@ == lu_solution(a@, b@),
    ensures
        a.apply_spec(x) == b,
{
    reveal_with_fuel(sum_to, 5);
    lu_solution_solves(a@, b@);
    let product = times_vector(a@, x@);
    assert(product[0] == sum_to(row_terms(a@, x@, 0), 4));
    plus_zero(a@[0][0].times_spec(x@[0]));
    assert(product[1] == sum_to(row_terms(a@, x@, 1), 4));
    plus_zero(a@[1][0].times_spec(x@[0]));
    assert(product[2] == sum_to(row_terms(a@, x@, 2), 4));
    plus_zero(a@[2][0].times_spec(x@[0]));
    assert(product[3] == sum_to(row_terms(a@, x@, 3), 4));
    plus_zero(a@[3][0].times_spec(x@[0]));
}

impl<T: Scalar> Mat4<T> {
    /// The projection matrix of the frustum between the planes given: the matrix is zero but
    /// for the seven entries stated, with two taken as one plus one.
    pub open spec fn frustum_spec(
        top: T,
        left: T,
        right: T,
        bottom: T,
        near: T,
        far: T,
    ) -> Mat4<T> {
        let two = T::one_value().plus_spec(T::one_value());
        let double_near = near.times_spec(two);
        let delta_x = right.minus_spec(left);
        let delta_y = top.minus_spec(bottom);
        let delta_z = far.minus_spec(near);
        Mat4 {
            rows: [
                Vec4 {
                    x: double_near.over_spec(delta_x),
                    y: T::zero_value(),
                    z: T::zero_value(),
                    w: T::zero_value(),
                },
                Vec4 {
                    x: T::zero_value(),
                    y: double_near.over_spec(delta_y),
                    z: T::zero_value(),
                    w: T::zero_value(),
                },
                Vec4 {
                    x: right.plus_spec(left).over_spec(delta_x),
                    y: top.plus_spec(bottom).over_spec(delta_y),
                    z: far.negated_spec().minus_spec(near).over_spec(delta_z),
                    w: T::one_value().negated_spec(),
                },
                Vec4 {
                    x: T::zero_value(),
                    y: T::zero_value(),
                    z: double_near.negated_spec().times_spec(far).over_spec(delta_z),
                    w: T::zero_value(),
                },
            ],
        }
    }

    /// Constructs a 4x4 frustum matrix from a top, left, right, bottom, near and far value.
    pub fn frustum(top: T, left: T, right: T, bottom: T, near: T, far: T) -> (m: Mat4<T>)
        ensures
            m == Mat4::frustum_spec(top, left, right, bottom, near, far),
    {
        let two = T::one().plus(T::one());
        let double_near = near.times(two);
        let delta_x = right.minus(left);
        let delta_y = top.minus(bottom);
        let delta_z = far.minus(near);
        Mat4 {
            rows: [
                Vec4 {
                    x: double_near.over(delta_x),
                    y: T::zero(),
                    z: T::zero(),
                    w: T::zero(),
                },
                Vec4 {
                    x: T::zero(),
                    y: double_near.over(delta_y),
                    z: T::zero(),
                    w: T::zero(),
                },
                Vec4 {
                    x: right.plus(left).over(delta_x),
                    y: top.plus(bottom).over(delta_y),
                    z: far.negated().minus(near).over(delta_z),
                    w: T::one().negated(),
                },
                Vec4 {
                    x: T::zero(),
                    y: T::zero(),
                    z: double_near.negated().times(far).over(delta_z),
                    w: T::zero(),
                },
            ],
        }
    }

    /// The orthogonal projection matrix of the box between the planes given: the matrix is
    /// zero but for the seven entries stated, with two taken as one plus one.
    pub open spec fn orthogonal_spec(
        top: T,
        left: T,
        right: T,
        bottom: T,
        near: T,
        far: T,
    ) -> Mat4<T> {
        let two = T::one_value().plus_spec(T::one_value());
        let left_to_right = T::one_value().over_spec(left.minus_spec(right));
        let bottom_to_top = T::one_value().over_spec(bottom.minus_spec(top));
        let near_to_far = T::one_value().over_spec(near.minus_spec(far));
        Mat4 {
            rows: [
                Vec4 {
                    x: two.negated_spec().times_spec(left_to_right),
                    y: T::zero_value(),
                    z: T::zero_value(),
                    w: T::zero_value(),
                },
                Vec4 {
                    x: T::zero_value(),
                    y: two.negated_spec().times_spec(bottom_to_top),
                    z: T::zero_value(),
                    w: T::zero_value(),
                },
                Vec4 {
                    x: T::zero_value(),
                    y: T::zero_value(),
                    z: two.times_spec(near_to_far),
                    w: T::zero_value(),
                },
                Vec4 {
                    x: left_to_right.times_spec(left.plus_spec(right)),
                    y: bottom_to_top.times_spec(top.plus_spec(bottom)),
                    z: near_to_far.times_spec(near.plus_spec(far)),
                    w: T::one_value(),
                },
            ],
        }
    }

    /// Constructs a 4x4 orthogonal projection matrix from a top, left, right, bottom, near
    /// and far value.
    pub fn orthogonal(top: T, left: T, right: T, bottom: T, near: T, far: T) -> (m: Mat4<T>)
        ensures
            m == Mat4::orthogonal_spec(top, left, right, bottom, near, far),
    {
        let two = T::one().plus(T::one());
        let left_to_right = T::one().over(left.minus(right));
        let bottom_to_top = T::one().over(bottom.minus(top));
        let near_to_far = T::one().over(near.minus(far));
        Mat4 {
            rows: [
                Vec4 {
                    x: two.negated().times(left_to_right),
                    y: T::zero(),
                    z: T::zero(),
                    w: T::zero(),
                },
                Vec4 {
                    x: T::zero(),
                    y: two.negated().times(bottom_to_top),
                    z: T::zero(),
                    w: T::zero(),
                },
                Vec4 {
                    x: T::zero(),
                    y: T::zero(),
                    z: two.times(near_to_far),
                    w: T::zero(),
                },
                Vec4 {
                    x: left_to_right.times(left.plus(right)),
                    y: bottom_to_top.times(top.plus(bottom)),
                    z: near_to_far.times(near.plus(far)),
                    w: T::one(),
                },
            ],
        }
    }
}

impl<T: Real> Mat4<T> {
    /// The view matrix of a camera at `eye` that looks at `target`: its rows
    /// are the unit vectors to the right, up and forward (from the target to
    /// the eye), each followed by zero, and the eye followed by one.
    pub open spec fn look_at_spec(eye: Vec3<T>, target: Vec3<T>, up: Vec3<T>) -> Mat4<T> {
        let forward = (Vec3 {
            x: eye.x.minus_spec(target.x),
            y: eye.y.minus_spec(target.y),
            z: eye.z.minus_spec(target.z),
        }).normalized_spec();
        let right = up.normalized_spec().cross_spec(forward).normalized_spec();
        let up = forward.cross_spec(right).normalized_spec();
        Mat4 {
            rows: [
                Vec4 { x: right.x, y: right.y, z: right.z, w: T::zero_value() },
                Vec4 { x: up.x, y: up.y, z: up.z, w: T::zero_value() },
                Vec4 { x: forward.x, y: forward.y, z: forward.z, w: T::zero_value() },
                Vec4 { x: eye.x, y: eye.y, z: eye.z, w: T::one_value() },
            ],
        }
    }

    /// Constructs a 4x4 view matrix from a position, a target and an up
    /// vector.
    pub fn look_at(eye: Vec3<T>, target: Vec3<T>, up: Vec3<T>) -> (m: Mat4<T>)
        ensures
            m == Mat4::look_at_spec(eye, target, up),
    {
        let forward = (eye - target).normalized();
        let right = up.normalized().cross(forward).normalized();
        let up = forward.cross(right).normalized();
        Mat4 {
            rows: [
                Vec4 { x: right.x, y: right.y, z: right.z, w: T::zero() },
                Vec4 { x: up.x, y: up.y, z: up.z, w: T::zero() },
                Vec4 { x: forward.x, y: forward.y, z: forward.z, w: T::zero() },
                Vec4 { x: eye.x, y: eye.y, z: eye.z, w: T::one() },
            ],
        }
    }
}

} // verus!
