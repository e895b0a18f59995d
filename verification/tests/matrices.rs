use gamemath::{Mat2, Mat3, Mat4, Quat, Real, Scalar, SquareMatrix, Vec2, Vec3, Vec4};

/// A machine number as the scalar of the library: each specification twin
/// is the operation itself.
#[derive(Clone, Copy, Debug, PartialEq)]
struct Double(f64);

impl Scalar for Double {
    fn zero_value() -> Self {
        Self::zero()
    }

    fn one_value() -> Self {
        Self::one()
    }

    fn plus_spec(self, rhs: Self) -> Self {
        self.plus(rhs)
    }

    fn minus_spec(self, rhs: Self) -> Self {
        self.minus(rhs)
    }

    fn times_spec(self, rhs: Self) -> Self {
        self.times(rhs)
    }

    fn over_spec(self, rhs: Self) -> Self {
        self.over(rhs)
    }

    fn negated_spec(self) -> Self {
        self.negated()
    }

    fn abs_spec(self) -> Self {
        self.abs()
    }

    fn less_than_spec(self, rhs: Self) -> bool {
        self.less_than(rhs)
    }

    fn zero() -> Self {
        Double(0.0)
    }

    fn one() -> Self {
        Double(1.0)
    }

    fn plus(self, rhs: Self) -> Self {
        Double(self.0 + rhs.0)
    }

    fn minus(self, rhs: Self) -> Self {
        Double(self.0 - rhs.0)
    }

    fn times(self, rhs: Self) -> Self {
        Double(self.0 * rhs.0)
    }

    fn over(self, rhs: Self) -> Self {
        Double(self.0 / rhs.0)
    }

    fn negated(self) -> Self {
        Double(-self.0)
    }

    fn abs(self) -> Self {
        Double(self.0.abs())
    }

    fn less_than(self, rhs: Self) -> bool {
        self.0 < rhs.0
    }
}

impl Real for Double {
    fn sqrt_spec(self) -> Self {
        self.sqrt()
    }

    fn equals_spec(self, rhs: Self) -> bool {
        self.equals(rhs)
    }

    fn sin_spec(self) -> Self {
        self.sin()
    }

    fn cos_spec(self) -> Self {
        self.cos()
    }

    fn sqrt(self) -> Self {
        Double(self.0.sqrt())
    }

    fn equals(self, rhs: Self) -> bool {
        self.0 == rhs.0
    }

    fn sin(self) -> Self {
        Double(self.0.sin())
    }

    fn cos(self) -> Self {
        Double(self.0.cos())
    }
}

fn d(value: f64) -> Double {
    Double(value)
}

fn v2(x: f64, y: f64) -> Vec2<Double> {
    Vec2::new(d(x), d(y))
}

fn v3(x: f64, y: f64, z: f64) -> Vec3<Double> {
    Vec3::new(d(x), d(y), d(z))
}

fn v4(x: f64, y: f64, z: f64, w: f64) -> Vec4<Double> {
    Vec4::new(d(x), d(y), d(z), d(w))
}

fn m2(a: [[f64; 2]; 2]) -> Mat2<Double> {
    Mat2::from([v2(a[0][0], a[0][1]), v2(a[1][0], a[1][1])])
}

fn m3(a: [[f64; 3]; 3]) -> Mat3<Double> {
    Mat3::from([
        v3(a[0][0], a[0][1], a[0][2]),
        v3(a[1][0], a[1][1], a[1][2]),
        v3(a[2][0], a[2][1], a[2][2]),
    ])
}

fn m4(a: [[f64; 4]; 4]) -> Mat4<Double> {
    Mat4::from([
        v4(a[0][0], a[0][1], a[0][2], a[0][3]),
        v4(a[1][0], a[1][1], a[1][2], a[1][3]),
        v4(a[2][0], a[2][1], a[2][2], a[2][3]),
        v4(a[3][0], a[3][1], a[3][2], a[3][3]),
    ])
}

fn q(x: f64, y: f64, z: f64, w: f64) -> Quat<Double> {
    Quat { x: d(x), y: d(y), z: d(z), w: d(w) }
}

fn sample() -> Mat4<Double> {
    m4([[1.0, 2.0, 0.0, 1.0], [0.0, 1.0, 3.0, 2.0], [2.0, 0.0, 1.0, 1.0], [1.0, 1.0, 0.0, 2.0]])
}

#[test]
fn matrix_products_of_two_and_three_rows() {
    let a = m2([[1.0, 2.0], [3.0, 4.0]]);
    let b = m2([[5.0, 6.0], [7.0, 8.0]]);
    assert_eq!(a * b, m2([[23.0, 34.0], [31.0, 46.0]]));
    let i = Mat3::<Double>::identity();
    let c = m3([[1.0, 2.0, 3.0], [4.0, 5.0, 6.0], [7.0, 8.0, 9.0]]);
    assert_eq!(c * i, c);
    assert_eq!(i * c, c);
    let s = m3([[0.0, 1.0, 0.0], [0.0, 0.0, 1.0], [1.0, 0.0, 0.0]]);
    assert_eq!(c * s, m3([[4.0, 5.0, 6.0], [7.0, 8.0, 9.0], [1.0, 2.0, 3.0]]));
}

#[test]
fn matrix_product_of_four_rows() {
    let a = sample();
    let b = m4([
        [2.0, 0.0, 1.0, 0.0],
        [1.0, 1.0, 0.0, 0.0],
        [0.0, 3.0, 1.0, 2.0],
        [1.0, 0.0, 0.0, 1.0],
    ]);
    assert_eq!(
        a * b,
        m4([
            [5.0, 2.0, 1.0, 1.0],
            [3.0, 10.0, 3.0, 8.0],
            [5.0, 3.0, 3.0, 3.0],
            [5.0, 1.0, 1.0, 2.0],
        ]),
    );
    assert_eq!(a * Mat4::identity(), a);
}

#[test]
fn matrix_compound_assignment() {
    let mut a = m2([[1.0, 2.0], [3.0, 4.0]]);
    a.add_assign(m2([[1.0, 1.0], [1.0, 1.0]]));
    assert_eq!(a, m2([[2.0, 3.0], [4.0, 5.0]]));
    a.sub_assign(m2([[2.0, 3.0], [4.0, 4.0]]));
    assert_eq!(a, m2([[0.0, 0.0], [0.0, 1.0]]));
    let mut b = m2([[1.0, 2.0], [3.0, 4.0]]);
    b.mul_assign(m2([[5.0, 6.0], [7.0, 8.0]]));
    assert_eq!(b, m2([[23.0, 34.0], [31.0, 46.0]]));
}

#[test]
fn scaled_matrices() {
    let a = m2([[1.0, 2.0], [3.0, 4.0]]);
    assert_eq!(a.scaled(v2(2.0, 3.0)), m2([[2.0, 4.0], [9.0, 12.0]]));
    let b = m3([[1.0, 2.0, 3.0], [4.0, 5.0, 6.0], [7.0, 8.0, 9.0]]);
    assert_eq!(b.scaled(v2(2.0, 3.0)), m3([[2.0, 4.0, 6.0], [12.0, 15.0, 18.0], [7.0, 8.0, 9.0]]));
    let mut c = Mat4::<Double>::identity();
    c.scale(v3(1.0, 2.0, 3.0));
    assert_eq!(c.at(0, 0), d(1.0));
    assert_eq!(c.at(1, 1), d(2.0));
    assert_eq!(c.at(2, 2), d(3.0));
    assert_eq!(c.at(3, 3), d(1.0));
}

#[test]
fn translated_matrices() {
    let i = Mat3::<Double>::identity();
    assert_eq!(i.translated(v2(2.0, 3.0)), m3([[1.0, 0.0, 0.0], [0.0, 1.0, 0.0], [2.0, 3.0, 1.0]]));
    let b = m3([[1.0, 2.0, 3.0], [4.0, 5.0, 6.0], [7.0, 8.0, 9.0]]);
    assert_eq!(
        b.translated(v2(1.0, 2.0)),
        m3([[1.0, 2.0, 3.0], [4.0, 5.0, 6.0], [16.0, 20.0, 24.0]]),
    );
    let mut c = Mat4::<Double>::identity();
    c.translate(v3(1.0, 2.0, 3.0));
    assert_eq!(c[3], v4(1.0, 2.0, 3.0, 1.0));
    assert_eq!(c[0], v4(1.0, 0.0, 0.0, 0.0));
}

#[test]
fn direction_vectors() {
    let a = sample();
    assert_eq!(a.get_left_vector(), v3(1.0, 0.0, 2.0));
    assert_eq!(a.get_right_vector(), v3(-1.0, -0.0, -2.0));
    assert_eq!(a.get_up_vector(), v3(2.0, 1.0, 0.0));
    assert_eq!(a.get_down_vector(), v3(-2.0, -1.0, -0.0));
    assert_eq!(a.get_backward_vector(), v3(0.0, 3.0, 1.0));
    assert_eq!(a.get_forward_vector(), v3(-0.0, -3.0, -1.0));
}

#[test]
fn determinant_of_four_rows() {
    assert_eq!(sample().determinant(), d(18.0));
    assert_eq!(Mat4::<Double>::identity().determinant(), d(1.0));
    let upper = m4([
        [2.0, 1.0, 1.0, 1.0],
        [0.0, 3.0, 1.0, 1.0],
        [0.0, 0.0, 4.0, 1.0],
        [0.0, 0.0, 0.0, 5.0],
    ]);
    assert_eq!(upper.determinant(), d(120.0));
}

#[test]
fn adjoint_of_four_rows() {
    assert_eq!(
        sample().adjointed(),
        m4([
            [3.0, -3.0, 9.0, -3.0],
            [11.0, 1.0, -3.0, -5.0],
            [1.0, 5.0, 3.0, -7.0],
            [-7.0, 1.0, -3.0, 13.0],
        ]),
    );
}

#[test]
fn inverse_of_four_rows() {
    let a = sample();
    let inverse = a.inverted();
    let expected = [
        [0.16666666666666666, -0.16666666666666666, 0.5, -0.16666666666666666],
        [0.6111111111111112, 0.05555555555555555, -0.16666666666666666, -0.2777777777777778],
        [0.05555555555555555, 0.2777777777777778, 0.16666666666666666, -0.3888888888888889],
        [-0.3888888888888889, 0.05555555555555555, -0.16666666666666666, 0.7222222222222222],
    ];
    for r in 0..4 {
        for c in 0..4 {
            assert!((inverse.at(r, c).0 - expected[r][c]).abs() < 1e-12);
        }
    }
    let mut b = a;
    b.invert();
    assert_eq!(b, inverse);
}

#[test]
fn inverse_without_positive_determinant_is_zero() {
    let singular = m4([
        [1.0, 2.0, 3.0, 4.0],
        [2.0, 4.0, 6.0, 8.0],
        [0.0, 1.0, 0.0, 1.0],
        [1.0, 0.0, 0.0, 1.0],
    ]);
    assert_eq!(singular.inverted(), m4([[0.0; 4]; 4]));
    let negative = m4([
        [0.0, 1.0, 0.0, 0.0],
        [1.0, 0.0, 0.0, 0.0],
        [0.0, 0.0, 1.0, 0.0],
        [0.0, 0.0, 0.0, 1.0],
    ]);
    assert_eq!(negative.determinant(), d(-1.0));
    assert_eq!(negative.inverted(), m4([[0.0; 4]; 4]));
}

#[test]
fn look_at_along_the_axes() {
    let m = Mat4::look_at(v3(0.0, 0.0, 1.0), v3(0.0, 0.0, 0.0), v3(0.0, 1.0, 0.0));
    assert_eq!(
        m,
        m4([
            [1.0, 0.0, 0.0, 0.0],
            [0.0, 1.0, 0.0, 0.0],
            [0.0, 0.0, 1.0, 0.0],
            [0.0, 0.0, 1.0, 1.0],
        ]),
    );
}

#[test]
fn frustum_of_a_symmetric_box() {
    let m = Mat4::frustum(d(1.0), d(-1.0), d(1.0), d(-1.0), d(1.0), d(3.0));
    assert_eq!(
        m,
        m4([
            [1.0, 0.0, 0.0, 0.0],
            [0.0, 1.0, 0.0, 0.0],
            [0.0, 0.0, -2.0, -1.0],
            [0.0, 0.0, -3.0, 0.0],
        ]),
    );
    let n = Mat4::frustum(d(2.0), d(0.0), d(4.0), d(0.0), d(1.0), d(2.0));
    assert_eq!(
        n,
        m4([
            [0.5, 0.0, 0.0, 0.0],
            [0.0, 1.0, 0.0, 0.0],
            [1.0, 1.0, -3.0, -1.0],
            [0.0, 0.0, -4.0, 0.0],
        ]),
    );
}

#[test]
fn orthogonal_projection_of_a_box() {
    let m = Mat4::orthogonal(d(1.0), d(-1.0), d(1.0), d(-1.0), d(1.0), d(3.0));
    assert_eq!(
        m,
        m4([
            [1.0, 0.0, 0.0, 0.0],
            [0.0, 1.0, 0.0, 0.0],
            [0.0, 0.0, -1.0, 0.0],
            [0.0, 0.0, -2.0, 1.0],
        ]),
    );
    let n = Mat4::orthogonal(d(2.0), d(0.0), d(4.0), d(0.0), d(1.0), d(2.0));
    assert_eq!(
        n,
        m4([
            [0.5, 0.0, 0.0, 0.0],
            [0.0, 1.0, 0.0, 0.0],
            [0.0, 0.0, -2.0, 0.0],
            [-1.0, -1.0, -3.0, 1.0],
        ]),
    );
}

#[test]
fn rotation_matrices() {
    let quarter = std::f64::consts::FRAC_PI_2;
    let (sin, cos) = (quarter.sin(), quarter.cos());
    assert_eq!(Mat2::rotation(d(quarter)), m2([[cos, -sin], [sin, cos]]));
    assert_eq!(Mat2::rotation(d(0.0)), m2([[1.0, -0.0], [0.0, 1.0]]));
    assert_eq!(
        Mat3::rotation(d(quarter)),
        m3([[cos, -sin, 0.0], [sin, cos, 0.0], [0.0, 0.0, 1.0]])
    );
    assert_eq!(Mat4::rotation(d(0.0), v3(0.0, 0.0, 2.0)), Mat4::identity());
    let about_z = Mat4::rotation(d(quarter), v3(0.0, 0.0, 2.0));
    assert_eq!(about_z[0], v4(cos, -sin, 0.0, 0.0));
    assert_eq!(about_z[1], v4(sin, cos, 0.0, 0.0));
    assert_eq!(about_z[2], v4(0.0, 0.0, (1.0 - cos) + cos, 0.0));
    assert_eq!(about_z[3], v4(0.0, 0.0, 0.0, 1.0));
}

#[test]
fn rotated_matrices() {
    let quarter = std::f64::consts::FRAC_PI_2;
    let a = m2([[1.0, 2.0], [3.0, 4.0]]);
    assert_eq!(a.rotated(d(quarter)), a * Mat2::rotation(d(quarter)));
    let mut b = a;
    b.rotate(d(quarter));
    assert_eq!(b, a.rotated(d(quarter)));
    let c = m3([[1.0, 2.0, 3.0], [4.0, 5.0, 6.0], [7.0, 8.0, 9.0]]);
    let mut e = c;
    e.rotate(d(0.5));
    assert_eq!(e, c * Mat3::rotation(d(0.5)));
    let mut f = sample();
    f.rotate(d(0.5), v3(1.0, 0.0, 0.0));
    assert_eq!(f, sample() * Mat4::rotation(d(0.5), v3(1.0, 0.0, 0.0)));
    assert_eq!(f, sample().rotated(d(0.5), v3(1.0, 0.0, 0.0)));
}

#[test]
fn quaternion_rotations() {
    let half = std::f64::consts::PI;
    let turn = Quat::rotation(d(half), v3(0.0, 0.0, 3.0));
    assert_eq!(turn, q(0.0, 0.0, (half / 2.0).sin(), (half / 2.0).cos()));
    assert_eq!(Quat::rotation(d(0.0), v3(1.0, 0.0, 0.0)), q(0.0, 0.0, 0.0, 1.0));
    let a = q(1.0, 2.0, 3.0, 4.0);
    assert_eq!(
        a.rotated(d(half), v3(0.0, 1.0, 0.0)),
        a * Quat::rotation(d(half), v3(0.0, 1.0, 0.0)),
    );
    let mut b = a;
    b.rotate(d(half), v3(0.0, 1.0, 0.0));
    assert_eq!(b, a.rotated(d(half), v3(0.0, 1.0, 0.0)));
}

#[test]
fn matrix_conversions() {
    let a = m2([[1.0, 2.0], [3.0, 4.0]]);
    assert_eq!(Mat2::from(((d(1.0), d(2.0)), (d(3.0), d(4.0)))), a);
    assert_eq!(Mat2::from((d(1.0), d(2.0), d(3.0), d(4.0))), a);
    assert_eq!(Mat2::from([d(1.0), d(2.0), d(3.0), d(4.0)]), a);
    assert_eq!(Mat2::from((v2(1.0, 2.0), v2(3.0, 4.0))), a);
    assert_eq!(Mat2::from([[d(1.0), d(2.0)], [d(3.0), d(4.0)]]), a);
    assert_eq!(Mat2::from(d(3.0)), m2([[3.0, 0.0], [0.0, 3.0]]));
    assert_eq!(Mat3::from(d(2.0)), m3([[2.0, 0.0, 0.0], [0.0, 2.0, 0.0], [0.0, 0.0, 2.0]]));
    assert_eq!(Mat4::from(d(1.0)), Mat4::identity());
}

#[test]
fn quaternion_identity_and_lengths() {
    assert_eq!(Quat::<Double>::identity(), q(0.0, 0.0, 0.0, 1.0));
    assert_eq!(Quat::<Double>::default(), q(0.0, 0.0, 0.0, 1.0));
    assert_eq!(q(1.0, 2.0, 2.0, 4.0).length_squared(), d(25.0));
    assert_eq!(q(1.0, 2.0, 2.0, 4.0).length(), d(5.0));
    assert_eq!(q(0.0, 3.0, 0.0, 4.0).normalized(), q(0.0 * 0.2, 3.0 * 0.2, 0.0 * 0.2, 4.0 * 0.2));
    let mut n = q(0.0, 0.0, 0.0, 2.0);
    n.normalize();
    assert_eq!(n, q(0.0, 0.0, 0.0, 1.0));
}

#[test]
fn quaternion_arithmetic() {
    let a = q(1.0, 2.0, 3.0, 4.0);
    let i = Quat::<Double>::identity();
    assert_eq!(a * i, a);
    assert_eq!(i * a, a);
    let x = q(1.0, 0.0, 0.0, 0.0);
    let y = q(0.0, 1.0, 0.0, 0.0);
    assert_eq!(x * y, q(0.0, 0.0, -1.0, 0.0));
    assert_eq!(y * x, q(0.0, 0.0, 1.0, 0.0));
    assert_eq!(a + a, q(2.0, 4.0, 6.0, 8.0));
    let mut b = a;
    b.add_assign(i);
    assert_eq!(b, q(1.0, 2.0, 3.0, 5.0));
    b.mul_assign(i);
    assert_eq!(b, q(1.0, 2.0, 3.0, 5.0));
}

#[test]
fn quaternion_conversions() {
    assert_eq!(Quat::from(d(3.0)), q(0.0, 0.0, 0.0, 3.0));
    assert_eq!(Quat::from(v4(1.0, 2.0, 3.0, 4.0)), q(1.0, 2.0, 3.0, 4.0));
    assert_eq!(Quat::from((d(1.0), d(2.0), d(3.0), d(4.0))), q(1.0, 2.0, 3.0, 4.0));
    assert_eq!(Quat::from([d(1.0), d(2.0), d(3.0), d(4.0)]), q(1.0, 2.0, 3.0, 4.0));
}

#[test]
fn quaternion_rotation_matrix() {
    assert_eq!(Quat::<Double>::identity().extract_matrix(), Mat4::identity());
    // A half turn about the z axis.
    let half_turn = q(0.0, 0.0, 1.0, 0.0);
    let m = half_turn.extract_matrix();
    assert_eq!(
        m,
        m4([
            [-1.0, 0.0, 0.0, 0.0],
            [0.0, -1.0, 0.0, 0.0],
            [0.0, 0.0, 1.0, 0.0],
            [0.0, 0.0, 0.0, 1.0],
        ]),
    );
    assert_eq!(Mat4::from(half_turn), m);
    // A quarter turn about the z axis: the sine and the cosine of an eighth of a
    // turn are both half the root of two.
    let h = 0.5_f64.sqrt();
    let quarter = q(0.0, 0.0, h, h).extract_matrix();
    assert!((quarter.at(0, 1).0 - 1.0).abs() < 1e-12);
    assert!((quarter.at(1, 0).0 + 1.0).abs() < 1e-12);
    assert!(quarter.at(0, 0).0.abs() < 1e-12);
    assert_eq!(quarter.at(2, 2), d(1.0));
}
