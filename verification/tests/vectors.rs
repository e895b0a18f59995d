use gamemath::{
    Curve, Mat2, Mat3, Real, Scalar, SquareMatrix, Vec2, Vec3, Vec4, Vector, Zero,
};

/// A machine number as the scalar of the library: each specification twin
/// is the operation itself.
#[derive(Clone, Copy, Debug, PartialEq)]
struct Double(f64);

impl Scalar for Double {
    fn zero_value() -> Self {
        Self::zero()
    }

    fn one_value() -> Self {
        Self::one()
    }

    fn plus_spec(self, rhs: Self) -> Self {
        self.plus(rhs)
    }

    fn minus_spec(self, rhs: Self) -> Self {
        self.minus(rhs)
    }

    fn times_spec(self, rhs: Self) -> Self {
        self.times(rhs)
    }

    fn over_spec(self, rhs: Self) -> Self {
        self.over(rhs)
    }

    fn negated_spec(self) -> Self {
        self.negated()
    }

    fn abs_spec(self) -> Self {
        self.abs()
    }

    fn less_than_spec(self, rhs: Self) -> bool {
        self.less_than(rhs)
    }

    fn zero() -> Self {
        Double(0.0)
    }

    fn one() -> Self {
        Double(1.0)
    }

    fn plus(self, rhs: Self) -> Self {
        Double(self.0 + rhs.0)
    }

    fn minus(self, rhs: Self) -> Self {
        Double(self.0 - rhs.0)
    }

    fn times(self, rhs: Self) -> Self {
        Double(self.0 * rhs.0)
    }

    fn over(self, rhs: Self) -> Self {
        Double(self.0 / rhs.0)
    }

    fn negated(self) -> Self {
        Double(-self.0)
    }

    fn abs(self) -> Self {
        Double(self.0.abs())
    }

    fn less_than(self, rhs: Self) -> bool {
        self.0 < rhs.0
    }
}

impl Real for Double {
    fn sqrt_spec(self) -> Self {
        self.sqrt()
    }

    fn equals_spec(self, rhs: Self) -> bool {
        self.equals(rhs)
    }

    fn sin_spec(self) -> Self {
        self.sin()
    }

    fn cos_spec(self) -> Self {
        self.cos()
    }

    fn sqrt(self) -> Self {
        Double(self.0.sqrt())
    }

    fn equals(self, rhs: Self) -> bool {
        self.0 == rhs.0
    }

    fn sin(self) -> Self {
        Double(self.0.sin())
    }

    fn cos(self) -> Self {
        Double(self.0.cos())
    }
}

fn d(value: f64) -> Double {
    Double(value)
}

fn v2(x: f64, y: f64) -> Vec2<Double> {
    Vec2::new(d(x), d(y))
}

fn v3(x: f64, y: f64, z: f64) -> Vec3<Double> {
    Vec3::new(d(x), d(y), d(z))
}

fn v4(x: f64, y: f64, z: f64, w: f64) -> Vec4<Double> {
    Vec4::new(d(x), d(y), d(z), d(w))
}

#[test]
fn new_sets_the_components() {
    let v = v3(1.0, 5.0, 23.0);
    assert_eq!(v.x, d(1.0));
    assert_eq!(v.y, d(5.0));
    assert_eq!(v.z, d(23.0));
    let w = v4(1.0, 5.0, 23.0, 7.0);
    assert_eq!(w.w, d(7.0));
    let u = v2(1.0, 5.0);
    assert_eq!(u.y, d(5.0));
}

#[test]
fn dot_products() {
    assert_eq!(v2(1.0, 2.0).dot(v2(3.0, 4.0)), d(11.0));
    assert_eq!(v3(1.0, 2.0, 3.0).dot(v3(4.0, 5.0, 6.0)), d(32.0));
    assert_eq!(v3(4.0, 5.0, 6.0).dot(v3(1.0, 2.0, 3.0)), d(32.0));
    assert_eq!(v4(1.0, 2.0, 3.0, 4.0).dot(v4(5.0, 6.0, 7.0, 8.0)), d(70.0));
}

#[test]
fn cross_products() {
    let a = v3(1.0, 2.0, 3.0);
    let b = v3(4.0, 5.0, 6.0);
    assert_eq!(a.cross(b), v3(-3.0, 6.0, -3.0));
    assert_eq!(b.cross(a), v3(3.0, -6.0, 3.0));
}

#[test]
fn fill_overwrites_every_component() {
    let mut v = v3(0.0, 1.0, 2.0);
    v.fill(d(6.0));
    assert_eq!(v, v3(6.0, 6.0, 6.0));
    let mut w = v4(0.0, 0.0, 0.0, 0.0);
    w.fill(d(6.0));
    assert_eq!(w, v4(6.0, 6.0, 6.0, 6.0));
    let mut u = v2(0.0, 0.0);
    u.fill(d(6.0));
    assert_eq!(u, v2(6.0, 6.0));
}

#[test]
fn squared_lengths() {
    assert_eq!(v2(1.0, 2.0).length_squared(), d(5.0));
    assert_eq!(v3(1.0, 2.0, 3.0).length_squared(), d(14.0));
    assert_eq!(v4(1.0, 2.0, 3.0, 4.0).length_squared(), d(30.0));
}

#[test]
fn manhattan_distances() {
    assert_eq!(v3(1.0, 2.0, 3.0).manhattan_distance(v3(2.0, 4.0, 6.0)), d(6.0));
    assert_eq!(v3(2.0, 4.0, 6.0).manhattan_distance(v3(1.0, 2.0, 3.0)), d(6.0));
    assert_eq!(v3(1.0, 5.0, 3.0).manhattan_distance(v3(2.0, 4.0, 3.0)), d(2.0));
}

#[test]
fn lengths() {
    assert_eq!(v2(3.0, 4.0).length(), d(5.0));
    assert_eq!(v3(1.0, 4.0, 8.0).length(), d(9.0));
    assert_eq!(v4(1.0, 2.0, 2.0, 4.0).length(), d(5.0));
}

#[test]
fn normalized_vectors() {
    assert_eq!(v2(3.0, 4.0).normalized(), v2(0.6, 0.8));
    assert_eq!(v3(9.0, 12.0, 20.0).normalized(), v3(0.36, 0.48, 0.8));
    assert_eq!(v4(1.0, 2.0, 2.0, 4.0).normalized(), v4(0.2, 0.4, 0.4, 0.8));
}

#[test]
fn normalize_in_place() {
    let mut v = v3(9.0, 12.0, 20.0);
    v.normalize();
    assert_eq!(v, v3(0.36, 0.48, 0.8));
    let mut u = v2(3.0, 4.0);
    u.normalize();
    assert_eq!(u, v2(0.6, 0.8));
    let mut w = v4(1.0, 2.0, 2.0, 4.0);
    w.normalize();
    assert_eq!(w, v4(0.2, 0.4, 0.4, 0.8));
}

#[test]
fn normalized_zero_vector_stays_zero() {
    assert_eq!(v2(0.0, 0.0).normalized(), v2(0.0, 0.0));
    assert_eq!(v3(0.0, 0.0, 0.0).normalized(), v3(0.0, 0.0, 0.0));
    assert_eq!(v4(0.0, 0.0, 0.0, 0.0).normalized(), v4(0.0, 0.0, 0.0, 0.0));
}

#[test]
fn default_and_zero_vectors() {
    assert_eq!(Vec3::<Double>::default(), v3(0.0, 0.0, 0.0));
    assert_eq!(Vec2::<Double>::zero(), v2(0.0, 0.0));
    assert_eq!(Vec4::<Double>::zero(), v4(0.0, 0.0, 0.0, 0.0));
}

#[test]
fn conversions_into_vectors() {
    assert_eq!(Vec3::from((d(1.0), d(2.0), d(3.0))), v3(1.0, 2.0, 3.0));
    assert_eq!(Vec3::from([d(1.0), d(2.0), d(3.0)]), v3(1.0, 2.0, 3.0));
    assert_eq!(Vec3::from(v2(1.0, 2.0)), v3(1.0, 2.0, 0.0));
    assert_eq!(Vec3::from(v4(1.0, 2.0, 3.0, 4.0)), v3(1.0, 2.0, 3.0));
    assert_eq!(Vec3::from(d(7.0)), v3(7.0, 7.0, 7.0));
    assert_eq!(Vec2::from(v3(1.0, 2.0, 3.0)), v2(1.0, 2.0));
    assert_eq!(Vec2::from(v4(1.0, 2.0, 3.0, 4.0)), v2(1.0, 2.0));
    assert_eq!(Vec4::from(v2(1.0, 2.0)), v4(1.0, 2.0, 0.0, 0.0));
    assert_eq!(Vec4::from(v3(1.0, 2.0, 3.0)), v4(1.0, 2.0, 3.0, 0.0));
    assert_eq!(Vec4::from((d(1.0), d(2.0), d(3.0), d(4.0))), v4(1.0, 2.0, 3.0, 4.0));
    assert_eq!(Vec2::from([d(1.0), d(2.0)]), v2(1.0, 2.0));
}

#[test]
fn components_by_index() {
    let v = v4(1.0, 2.0, 3.0, 4.0);
    assert_eq!(v[0], d(1.0));
    assert_eq!(v[3], d(4.0));
    assert_eq!(v.get(2), d(3.0));
    let mut u = v3(1.0, 2.0, 3.0);
    u.set(1, d(9.0));
    assert_eq!(u, v3(1.0, 9.0, 3.0));
    assert_eq!(u[1], d(9.0));
    let mut w = v2(1.0, 2.0);
    w.set(0, d(5.0));
    w.set(1, d(6.0));
    assert_eq!(w, v2(5.0, 6.0));
}

#[test]
fn vector_arithmetic() {
    assert_eq!(v3(1.0, 2.0, 3.0) + v3(4.0, 5.0, 6.0), v3(5.0, 7.0, 9.0));
    assert_eq!(v3(1.0, 2.0, 3.0) - v3(4.0, 5.0, 7.0), v3(-3.0, -3.0, -4.0));
    assert_eq!(v3(1.0, 2.0, 3.0) * d(2.0), v3(2.0, 4.0, 6.0));
    assert_eq!(-v3(1.0, -2.0, 3.0), v3(-1.0, 2.0, -3.0));
    assert_eq!(v2(1.0, 2.0) + v2(4.0, 5.0), v2(5.0, 7.0));
    assert_eq!(-v2(1.0, 2.0), v2(-1.0, -2.0));
    assert_eq!(v4(1.0, 2.0, 3.0, 4.0) * d(0.5), v4(0.5, 1.0, 1.5, 2.0));
    assert_eq!(-v4(1.0, 2.0, 3.0, 4.0), v4(-1.0, -2.0, -3.0, -4.0));
}

#[test]
fn vector_compound_assignment() {
    let mut v = v3(1.0, 2.0, 3.0);
    v.add_assign(v3(1.0, 1.0, 1.0));
    assert_eq!(v, v3(2.0, 3.0, 4.0));
    v.sub_assign(v3(2.0, 2.0, 2.0));
    assert_eq!(v, v3(0.0, 1.0, 2.0));
    v.mul_assign(d(3.0));
    assert_eq!(v, v3(0.0, 3.0, 6.0));
}

#[test]
fn curve_interpolation() {
    let c = Curve::new(&[d(0.0), d(10.0), d(5.0), d(0.0)]);
    // Three quarters along four values: a quarter of the way from 5 to 0.
    assert_eq!(c.lerp(Some((2, 3, d(0.25)))), d(3.75));
    assert_eq!(c.lerp(Some((0, 1, d(0.5)))), d(5.0));
    assert_eq!(c.lerp(None), d(0.0));
}

#[test]
fn identity_and_zero_matrices() {
    let i = Mat3::<Double>::identity();
    assert_eq!(i[0], v3(1.0, 0.0, 0.0));
    assert_eq!(i[1], v3(0.0, 1.0, 0.0));
    assert_eq!(i[2], v3(0.0, 0.0, 1.0));
    assert_eq!(Mat3::<Double>::default(), i);
    let z = Mat2::<Double>::zero();
    assert_eq!(z[0], v2(0.0, 0.0));
    assert_eq!(z[1], v2(0.0, 0.0));
}

#[test]
fn matrix_entries_by_row_and_column() {
    let mut m = Mat2::from([[d(1.0), d(2.0)], [d(3.0), d(4.0)]]);
    assert_eq!(m.at(0, 1), d(2.0));
    assert_eq!(m.at(1, 0), d(3.0));
    m.put(1, 0, d(9.0));
    assert_eq!(m, Mat2::from([v2(1.0, 2.0), v2(9.0, 4.0)]));
}

#[test]
fn transposed_matrices() {
    let m = Mat3::from([v3(0.0, 1.0, 2.0), v3(3.0, 4.0, 5.0), v3(6.0, 7.0, 8.0)]);
    let t = Mat3::from([v3(0.0, 3.0, 6.0), v3(1.0, 4.0, 7.0), v3(2.0, 5.0, 8.0)]);
    assert_eq!(m.transposed(), t);
    let mut n = m;
    n.transpose();
    assert_eq!(n, t);
}

#[test]
fn matrix_arithmetic() {
    let m = Mat2::from([v2(1.0, 2.0), v2(3.0, 4.0)]);
    let n = Mat2::from([v2(4.0, 3.0), v2(2.0, 1.0)]);
    assert_eq!(m + n, Mat2::from([v2(5.0, 5.0), v2(5.0, 5.0)]));
    assert_eq!(m - n, Mat2::from([v2(-3.0, -1.0), v2(1.0, 3.0)]));
    assert_eq!(m * v2(1.0, 1.0), v2(3.0, 7.0));
}
