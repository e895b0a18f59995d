use gamemath::{Bit, Mat3, Scalar, SquareMatrix, Vec3, LU};

fn bit(value: u8) -> Bit {
    Bit(value == 1)
}

fn v3(a: [u8; 3]) -> Vec3<Bit> {
    Vec3::new(bit(a[0]), bit(a[1]), bit(a[2]))
}

fn m3(a: [[u8; 3]; 3]) -> Mat3<Bit> {
    Mat3::from([v3(a[0]), v3(a[1]), v3(a[2])])
}

#[test]
fn arithmetic_modulo_two() {
    assert_eq!(Bit::zero(), bit(0));
    assert_eq!(Bit::one(), bit(1));
    assert_eq!(bit(1).plus(bit(1)), bit(0));
    assert_eq!(bit(1).plus(bit(0)), bit(1));
    assert_eq!(bit(0).minus(bit(1)), bit(1));
    assert_eq!(bit(1).minus(bit(1)), bit(0));
    assert_eq!(bit(1).times(bit(1)), bit(1));
    assert_eq!(bit(1).times(bit(0)), bit(0));
    assert_eq!(bit(1).over(bit(1)), bit(1));
    assert_eq!(bit(0).over(bit(1)), bit(0));
    assert_eq!(bit(1).negated(), bit(1));
    assert_eq!(bit(1).abs(), bit(1));
    assert!(bit(0).less_than(bit(1)));
    assert!(!bit(1).less_than(bit(0)));
    assert!(!bit(1).less_than(bit(1)));
    assert!(!bit(0).less_than(bit(0)));
}

#[test]
fn exact_solution_of_a_system_of_bits() {
    let a = m3([[0, 1, 1], [1, 1, 0], [1, 0, 0]]);
    let b = v3([1, 0, 1]);
    let x = a.lu_solve(b);
    assert_eq!(x, v3([1, 1, 0]));
    assert_eq!(a * x, b);
}

#[test]
fn exact_factors_of_a_matrix_of_bits() {
    let a = m3([[0, 1, 1], [1, 1, 0], [1, 0, 0]]);
    let (l, u, p) = a.decompose_lu();
    assert_eq!(p, vec![1, 0, 2]);
    for i in 0..3 {
        for j in 0..3 {
            let mut sum = Bit::zero();
            for k in 0..3 {
                sum = sum.plus(l.at(i, k).times(u.at(k, j)));
            }
            assert_eq!(sum, a.at(p[i], j));
        }
    }
}

#[test]
fn every_system_of_two_bits_with_nonzero_pivots_is_solved() {
    for code in 0..64_u8 {
        let entry = |k: u8| (code >> k) & 1;
        let a = gamemath::Mat2::from([
            gamemath::Vec2::new(bit(entry(0)), bit(entry(1))),
            gamemath::Vec2::new(bit(entry(2)), bit(entry(3))),
        ]);
        let b = gamemath::Vec2::new(bit(entry(4)), bit(entry(5)));
        let (_, u, _) = a.decompose_lu();
        if u.at(0, 0) == bit(1) && u.at(1, 1) == bit(1) {
            assert_eq!(a * a.lu_solve(b), b);
        }
    }
}
