use gamemath::{Dimensional, Mat2, Mat3, Mat4, Permute, Scalar, SquareMatrix, Vec2, Vec3, Vec4, LU};

/// A machine number as the scalar of the library: each specification twin
/// is the operation itself.
#[derive(Clone, Copy, Debug, PartialEq)]
struct Single(f32);

impl Scalar for Single {
    fn zero_value() -> Self {
        Self::zero()
    }

    fn one_value() -> Self {
        Self::one()
    }

    fn plus_spec(self, rhs: Self) -> Self {
        self.plus(rhs)
    }

    fn minus_spec(self, rhs: Self) -> Self {
        self.minus(rhs)
    }

    fn times_spec(self, rhs: Self) -> Self {
        self.times(rhs)
    }

    fn over_spec(self, rhs: Self) -> Self {
        self.over(rhs)
    }

    fn negated_spec(self) -> Self {
        self.negated()
    }

    fn abs_spec(self) -> Self {
        self.abs()
    }

    fn less_than_spec(self, rhs: Self) -> bool {
        self.less_than(rhs)
    }

    fn zero() -> Self {
        Single(0.0)
    }

    fn one() -> Self {
        Single(1.0)
    }

    fn plus(self, rhs: Self) -> Self {
        Single(self.0 + rhs.0)
    }

    fn minus(self, rhs: Self) -> Self {
        Single(self.0 - rhs.0)
    }

    fn times(self, rhs: Self) -> Self {
        Single(self.0 * rhs.0)
    }

    fn over(self, rhs: Self) -> Self {
        Single(self.0 / rhs.0)
    }

    fn negated(self) -> Self {
        Single(-self.0)
    }

    fn abs(self) -> Self {
        Single(self.0.abs())
    }

    fn less_than(self, rhs: Self) -> bool {
        self.0 < rhs.0
    }
}

fn s(value: f32) -> Single {
    Single(value)
}

fn v2(a: [f32; 2]) -> Vec2<Single> {
    Vec2::new(s(a[0]), s(a[1]))
}

fn v3(a: [f32; 3]) -> Vec3<Single> {
    Vec3::new(s(a[0]), s(a[1]), s(a[2]))
}

fn v4(a: [f32; 4]) -> Vec4<Single> {
    Vec4::new(s(a[0]), s(a[1]), s(a[2]), s(a[3]))
}

fn m2(a: [[f32; 2]; 2]) -> Mat2<Single> {
    Mat2::from([v2(a[0]), v2(a[1])])
}

fn m3(a: [[f32; 3]; 3]) -> Mat3<Single> {
    Mat3::from([v3(a[0]), v3(a[1]), v3(a[2])])
}

fn m4(a: [[f32; 4]; 4]) -> Mat4<Single> {
    Mat4::from([v4(a[0]), v4(a[1]), v4(a[2]), v4(a[3])])
}

fn sample() -> Mat3<Single> {
    m3([[1.0, 3.0, 5.0], [2.0, 4.0, 7.0], [1.0, 1.0, 0.0]])
}

fn sample4() -> Mat4<Single> {
    m4([[0.0, 2.0, 1.0, 1.0], [4.0, 1.0, 0.0, 2.0], [2.0, 0.0, 3.0, 1.0], [-4.0, 3.0, 1.0, 5.0]])
}

fn close(a: Single, b: f32) -> bool {
    (a.0 - b).abs() < 1e-4
}

fn is_permutation(p: &[usize], n: usize) -> bool {
    p.len() == n && (0..n).all(|k| p.iter().filter(|&&i| i == k).count() == 1)
}

#[test]
fn lu_solve_reference_system() {
    let x = sample().lu_solve(v3([5.0, 6.0, 10.0]));
    assert!(close(x.x, 1.25));
    assert!(close(x.y, 8.75));
    assert!(close(x.z, -4.5));
}

#[test]
fn lu_solve_reference_system_is_exact() {
    let x = sample().lu_solve(v3([5.0, 6.0, 10.0]));
    assert_eq!(x, v3([1.25, 8.75, -4.5]));
}

#[test]
fn pivot_permutation_of_reference_system() {
    let p = Mat3::get_pivot_permutation(&sample());
    assert_eq!(p, vec![1, 0, 2]);
}

#[test]
fn decompose_lu_reference_factors() {
    let (l, u, p) = sample().decompose_lu();
    assert_eq!(p, vec![1, 0, 2]);
    let expected_u = [[2.0, 4.0, 7.0], [0.0, 1.0, 1.5], [0.0, 0.0, -2.0]];
    let expected_l = [[1.0, 0.0, 0.0], [0.5, 1.0, 0.0], [0.5, -1.0, 1.0]];
    for r in 0..3 {
        for c in 0..3 {
            assert!(close(u.at(r, c), expected_u[r][c]));
            assert!(close(l.at(r, c), expected_l[r][c]));
        }
    }
}

#[test]
fn decompose_lu_reconstructs_permuted_rows() {
    let a = sample4();
    let (l, u, p) = a.decompose_lu();
    for i in 0..4 {
        for j in 0..4 {
            let mut sum = 0.0_f32;
            for k in 0..4 {
                sum += l.at(i, k).0 * u.at(k, j).0;
            }
            assert!((sum - a.at(p[i], j).0).abs() < 1e-4);
        }
    }
}

#[test]
fn decompose_lu_reconstructs_reference_rows() {
    let a = sample();
    let (l, u, p) = a.decompose_lu();
    for i in 0..3 {
        for j in 0..3 {
            let mut sum = 0.0_f32;
            for k in 0..3 {
                sum += l.at(i, k).0 * u.at(k, j).0;
            }
            assert!((sum - a.at(p[i], j).0).abs() < 1e-4);
        }
    }
}

#[test]
fn lu_solve_satisfies_the_system() {
    let a = sample4();
    let b = v4([3.0, -1.0, 7.0, 2.0]);
    let x = a.lu_solve(b);
    let back = a * x;
    assert!(close(back.x, 3.0));
    assert!(close(back.y, -1.0));
    assert!(close(back.z, 7.0));
    assert!(close(back.w, 2.0));
}

#[test]
fn lu_solve_two_by_two() {
    let a = m2([[2.0, 1.0], [4.0, -6.0]]);
    let x = a.lu_solve(v2([5.0, -2.0]));
    assert!(close(x.x, 1.75));
    assert!(close(x.y, 1.5));
}

#[test]
fn pivot_permutation_is_a_permutation() {
    assert!(is_permutation(&Mat2::get_pivot_permutation(&m2([[0.0, 1.0], [1.0, 0.0]])), 2));
    assert!(is_permutation(&Mat3::get_pivot_permutation(&sample()), 3));
    assert!(is_permutation(&Mat4::get_pivot_permutation(&sample4()), 4));
    let zeros = m4([[0.0; 4]; 4]);
    assert_eq!(Mat4::get_pivot_permutation(&zeros), vec![0, 1, 2, 3]);
    let nan = f32::NAN;
    let odd = m3([[nan, 1.0, -2.0], [3.0, nan, 0.0], [-3.0, 5.0, nan]]);
    assert!(is_permutation(&Mat3::get_pivot_permutation(&odd), 3));
}

#[test]
fn pivot_permutation_four_by_four() {
    // Column 0 brings row 1 (the first of magnitude 4) to the top; column 1
    // then compares the rows in the new order, and so on.
    assert_eq!(Mat4::get_pivot_permutation(&sample4()), vec![1, 3, 2, 0]);
}

#[test]
fn pivot_looks_through_the_current_order() {
    // After column 0 exchanged the rows 0 and 2, position 2 holds row 0,
    // whose entry in column 1 is the greatest of the remaining candidates.
    let a = m3([[1.0, 9.0, 0.0], [2.0, 1.0, 0.0], [5.0, 0.0, 0.0]]);
    assert_eq!(Mat3::get_pivot_permutation(&a), vec![2, 0, 1]);
}

#[test]
fn pivot_tie_keeps_the_earlier_row() {
    let a = m3([[1.0, 0.0, 0.0], [-2.0, 1.0, 0.0], [2.0, 0.0, 1.0]]);
    assert_eq!(Mat3::get_pivot_permutation(&a)[0], 1);
    let b = m3([[3.0, 0.0, 0.0], [-3.0, 1.0, 0.0], [1.0, 0.0, 1.0]]);
    assert_eq!(Mat3::get_pivot_permutation(&b), vec![0, 1, 2]);
}

#[test]
fn pivot_leaves_a_zero_column_in_place() {
    let a = m2([[0.0, 1.0], [0.0, 2.0]]);
    assert_eq!(Mat2::get_pivot_permutation(&a), vec![0, 1]);
}

#[test]
fn lower_factor_has_unit_diagonal() {
    let (l, _, _) = sample4().decompose_lu();
    for i in 0..4 {
        assert_eq!(l.at(i, i), s(1.0));
        for j in (i + 1)..4 {
            assert_eq!(l.at(i, j), s(0.0));
        }
    }
    let (l, u, _) = m2([[0.0, 1.0], [0.0, 2.0]]).decompose_lu();
    assert_eq!(l.at(0, 0), s(1.0));
    assert_eq!(l.at(1, 1), s(1.0));
    assert_eq!(u.at(1, 0), s(0.0));
}

#[test]
fn upper_factor_is_zero_below_the_diagonal() {
    let (_, u, _) = sample4().decompose_lu();
    for i in 0..4 {
        for j in 0..i {
            assert_eq!(u.at(i, j), s(0.0));
        }
    }
}

#[test]
fn singular_matrix_gives_non_finite_components() {
    let a = m2([[0.0, 1.0], [0.0, 2.0]]);
    let x = a.lu_solve(v2([1.0, 1.0]));
    assert!(!x.x.0.is_finite() || !x.y.0.is_finite());
}

#[test]
fn repeated_calls_give_identical_bits() {
    let a = sample4();
    let b = v4([0.1, 0.2, 0.3, 0.7]);
    let first = a.lu_solve(b);
    let second = a.lu_solve(b);
    assert_eq!(first.x.0.to_bits(), second.x.0.to_bits());
    assert_eq!(first.y.0.to_bits(), second.y.0.to_bits());
    assert_eq!(first.z.0.to_bits(), second.z.0.to_bits());
    assert_eq!(first.w.0.to_bits(), second.w.0.to_bits());
    assert_eq!(Mat4::get_pivot_permutation(&a), Mat4::get_pivot_permutation(&a));
    let (lower, upper, order) = a.decompose_lu();
    let (lower_again, upper_again, order_again) = a.decompose_lu();
    assert_eq!(order, order_again);
    for r in 0..4 {
        for c in 0..4 {
            assert_eq!(lower.at(r, c).0.to_bits(), lower_again.at(r, c).0.to_bits());
            assert_eq!(upper.at(r, c).0.to_bits(), upper_again.at(r, c).0.to_bits());
        }
    }
}

#[test]
fn solve_with_l_substitutes_forward() {
    let l = m3([[1.0, 0.0, 0.0], [0.5, 1.0, 0.0], [0.5, -1.0, 1.0]]);
    let y = Mat3::solve_with_L(&l, v3([6.0, 5.0, 10.0]));
    assert_eq!(y, v3([6.0, 2.0, 9.0]));
}

#[test]
fn solve_with_l_reads_below_the_diagonal_only() {
    let l = m3([[7.0, 8.0, 9.0], [0.5, 7.0, 8.0], [0.5, -1.0, 7.0]]);
    let y = Mat3::solve_with_L(&l, v3([6.0, 5.0, 10.0]));
    assert_eq!(y, v3([6.0, 2.0, 9.0]));
}

#[test]
fn solve_with_u_substitutes_backward() {
    let u = m3([[2.0, 4.0, 7.0], [0.0, 1.0, 1.5], [0.0, 0.0, -2.0]]);
    let x = Mat3::solve_with_U(&u, v3([6.0, 2.0, 9.0]));
    assert_eq!(x, v3([1.25, 8.75, -4.5]));
}

#[test]
fn solve_with_u_zero_pivot_is_not_finite() {
    let u = m2([[1.0, 1.0], [0.0, 0.0]]);
    let x = Mat2::solve_with_U(&u, v2([1.0, 1.0]));
    assert!(x.y.0.is_infinite());
}

#[test]
fn permuted_reorders_components() {
    let v = v3([9.0, 12.0, 20.0]);
    let p = vec![2, 0, 1];
    assert_eq!(v.permuted(&p), v3([20.0, 9.0, 12.0]));
    assert_eq!(v4([1.0, 2.0, 3.0, 4.0]).permuted(&[3, 3, 0, 1]), v4([4.0, 4.0, 1.0, 2.0]));
    assert_eq!(v2([1.0, 2.0]).permuted(&[1, 0]), v2([2.0, 1.0]));
}

#[test]
fn dimensions_are_fixed() {
    assert_eq!(Mat2::<Single>::dimension(), 2);
    assert_eq!(Mat3::<Single>::dimension(), 3);
    assert_eq!(Mat4::<Single>::dimension(), 4);
    assert_eq!(Vec2::<Single>::dimension(), 2);
    assert_eq!(Vec3::<Single>::dimension(), 3);
    assert_eq!(Vec4::<Single>::dimension(), 4);
}
